//! The business-chat backend: the calls of its web interface and what its
//! answers mean. The interface sends messages and media; it lists and
//! reads nothing.

use crate::entities::{
    Message, MessageMeta, MessageMetaView, MessageView, Platform, Profile, ProfileView,
};
use crate::error::{AgentError, ErrorKind};
use crate::http::{json_call, plain_call, refused, success, HttpCall, HttpCallView, Method};
use crate::json::{
    field, int_of, integer, items, items_of, json_views, member, opt_json, opt_str, owned_or,
    text, text_of, Json, JsonView,
};
use crate::tdlib::parse::{first_item, first_of, is_blank, non_empty, text_or};
use crate::text::{
    base_name, contains_parent_dir, decimal, extension, extension_of, file_name, glue, has_parent_dir, lowercase, push_decimal, push_decimal_nat, str_eq, str_to_lowercase,
};
use vstd::prelude::*;

verus! {

/// Where the web interface lives.
pub const BASE_URL: &'static str = "https://graph.facebook.com/v21.0";

/// What the adapter needs to know.
#[derive(Debug, Clone)]
pub struct WhatsAppConfig {
    pub access_token: String,
    pub phone_number_id: String,
}

/// The address of a path under the number of the adapter.
pub open spec fn number_url(config: WhatsAppConfig, path: Seq<char>) -> Seq<char> {
    BASE_URL@ + "/"@ + config.phone_number_id@ + path
}

/// The address of a path under the number of the adapter.
pub fn url(config: &WhatsAppConfig, path: &str) -> (r: String)
    ensures
        r@ == number_url(*config, path@),
{
    let mut r = String::from_str(BASE_URL);
    r.append("/");
    r.append(config.phone_number_id.as_str());
    r.append(path);
    r
}

/// The value of the authorization header for a token.
pub fn authorization(config: &WhatsAppConfig) -> (r: String)
    ensures
        r@ == "Bearer "@ + config.access_token@,
{
    glue("Bearer ", config.access_token.as_str())
}

/// What the body of a failed answer tells of the failure: the message, the
/// whole body where it has none, and the code, 0 where it has none. `None`
/// where the body is no JSON object, has no `error` object, or has a
/// message that is no text or a code that is no integer.
pub open spec fn error_detail(body: Seq<char>) -> Option<(i64, Seq<char>)> {
    match crate::json::parsed(body) {
        Some(JsonView::Object(entries)) => match JsonView::Object(entries).get("error"@) {
            Some(JsonView::Object(detail)) => {
                let message = JsonView::Object(detail).get("message"@);
                let code = JsonView::Object(detail).get("code"@);
                let message_fits = message is None || message == Some(JsonView::Null) || text_of(
                    message,
                ) is Some;
                let code_fits = code is None || code == Some(JsonView::Null) || int_of(code)
                    is Some;
                if message_fits && code_fits {
                    Some(
                        (
                            match int_of(code) {
                                Some(c) => c,
                                None => 0,
                            },
                            text_or(text_of(message), body),
                        ),
                    )
                } else {
                    None
                }
            },
            _ => None,
        },
        _ => None,
    }
}

/// The failure that an answer without success amounts to: an authorization
/// failure for 401 and 403; else the failure that the body tells of, or,
/// where it tells of none, the failure with the status and the body.
pub open spec fn failure_of(body: Seq<char>, status: u16) -> (ErrorKind, Seq<char>) {
    if refused(status) {
        (ErrorKind::Auth, "whatsapp auth failed ("@ + decimal(status as int) + "): "@ + body)
    } else {
        match error_detail(body) {
            Some((code, message)) => (
                ErrorKind::Api,
                "whatsapp error "@ + decimal(code as int) + ": "@ + message,
            ),
            None => (
                ErrorKind::Api,
                "whatsapp error ("@ + decimal(status as int) + "): "@ + body,
            ),
        }
    }
}

fn is_object(j: &Json) -> (r: bool)
    ensures
        r == (j@ is Object),
{
    match j {
        Json::Object(_) => true,
        _ => false,
    }
}

fn is_null(j: Option<&Json>) -> (r: bool)
    ensures
        r == (opt_json(j) == Some(JsonView::Null)),
{
    match j {
        Some(Json::Null) => true,
        _ => false,
    }
}

fn detail_of(body: &str) -> (r: Option<(i64, String)>)
    ensures
        match r {
            Some((code, message)) => error_detail(body@) == Some((code, message@)),
            None => error_detail(body@) is None,
        },
{
    let parsed = match Json::parse(body) {
        Ok(j) => j,
        Err(_) => {
            return None;
        },
    };
    if !is_object(&parsed) {
        return None;
    }
    let detail: &Json = match parsed.get("error") {
        Some(d) => d,
        None => {
            return None;
        },
    };
    if !is_object(detail) {
        return None;
    }
    let message = detail.get("message");
    let code = detail.get("code");
    let message_fits: bool = message.is_none() || is_null(message) || text(message).is_some();
    let code_fits: bool = code.is_none() || is_null(code) || integer(code).is_some();
    if message_fits && code_fits {
        let c: i64 = match integer(code) {
            Some(c) => c,
            None => 0,
        };
        Some((c, owned_or(text(message), body)))
    } else {
        None
    }
}

/// The failure that an answer without success amounts to.
pub fn parse_api_error(body: &str, status: u16) -> (e: AgentError)
    ensures
        e@ == failure_of(body@, status),
{
    if status == 401 || status == 403 {
        let mut s = String::from_str("whatsapp auth failed (");
        push_decimal_nat(&mut s, status as u64);
        s.append("): ");
        s.append(body);
        return AgentError::Auth(s);
    }
    match detail_of(body) {
        Some((code, message)) => {
            let mut s = String::from_str("whatsapp error ");
            push_decimal(&mut s, code);
            s.append(": ");
            s.append(message.as_str());
            AgentError::Api(s)
        },
        None => {
            let mut s = String::from_str("whatsapp error (");
            push_decimal_nat(&mut s, status as u64);
            s.append("): ");
            s.append(body);
            AgentError::Api(s)
        },
    }
}

/// The failure of a call that did not get through.
pub fn request_failed(detail: &str) -> (e: AgentError)
    ensures
        e@ == (ErrorKind::Network, "whatsapp request failed: "@ + detail@),
{
    AgentError::Network(glue("whatsapp request failed: ", detail))
}

/// The failure of an answer whose body could not be read.
pub fn unreadable_body(detail: &str) -> (e: AgentError)
    ensures
        e@ == (ErrorKind::Network, "whatsapp read body: "@ + detail@),
{
    AgentError::Network(glue("whatsapp read body: ", detail))
}

/// What an answer amounts to: the failure of a status without success,
/// the failure of a body that is not JSON, or else the body.
pub fn parse_response(status: u16, body: &str) -> (r: Result<Json, AgentError>)
    ensures
        match r {
            Ok(j) => success(status) && crate::json::parsed(body@) == Some(j@),
            Err(e) => if !success(status) {
                e@ == failure_of(body@, status)
            } else {
                crate::json::parsed(body@) is None && e@.0 == ErrorKind::Api
                    && "whatsapp parse response: "@.is_prefix_of(e@.1)
            },
        },
{
    if !crate::http::is_success(status) {
        return Err(parse_api_error(body, status));
    }
    match Json::parse(body) {
        Ok(j) => Ok(j),
        Err(e) => Err(AgentError::Api(glue("whatsapp parse response: ", e.detail()))),
    }
}

/// The sorts of media that the interface takes.
#[derive(Debug, Clone, Copy, PartialEq, Eq, Structural)]
pub enum MediaSort {
    Image,
    Video,
    Audio,
    Document,
}

/// The name of a sort of media.
pub open spec fn sort_name(sort: MediaSort) -> Seq<char> {
    match sort {
        MediaSort::Image => "image"@,
        MediaSort::Video => "video"@,
        MediaSort::Audio => "audio"@,
        MediaSort::Document => "document"@,
    }
}

impl MediaSort {
    /// The name of this sort.
    pub fn name(&self) -> (s: &'static str)
        ensures
            s@ == sort_name(*self),
    {
        match self {
            MediaSort::Image => "image",
            MediaSort::Video => "video",
            MediaSort::Audio => "audio",
            MediaSort::Document => "document",
        }
    }

    /// Whether media of this sort can carry a caption.
    pub fn supports_caption(&self) -> (r: bool)
        ensures
            r == (*self != MediaSort::Audio),
    {
        match self {
            MediaSort::Audio => false,
            _ => true,
        }
    }
}

/// The sort and the type of media of a file with the given extension in
/// lowercase; a document of unknown type for every other extension.
pub open spec fn media_of_extension(ext: Seq<char>) -> (MediaSort, Seq<char>) {
    if ext == "jpg"@ || ext == "jpeg"@ {
        (MediaSort::Image, "image/jpeg"@)
    } else if ext == "png"@ {
        (MediaSort::Image, "image/png"@)
    } else if ext == "gif"@ {
        (MediaSort::Image, "image/gif"@)
    } else if ext == "webp"@ {
        (MediaSort::Image, "image/webp"@)
    } else if ext == "mp4"@ {
        (MediaSort::Video, "video/mp4"@)
    } else if ext == "3gp"@ {
        (MediaSort::Video, "video/3gpp"@)
    } else if ext == "mp3"@ {
        (MediaSort::Audio, "audio/mpeg"@)
    } else if ext == "ogg"@ {
        (MediaSort::Audio, "audio/ogg"@)
    } else if ext == "amr"@ {
        (MediaSort::Audio, "audio/amr"@)
    } else if ext == "aac"@ {
        (MediaSort::Audio, "audio/aac"@)
    } else if ext == "opus"@ {
        (MediaSort::Audio, "audio/opus"@)
    } else if ext == "pdf"@ {
        (MediaSort::Document, "application/pdf"@)
    } else if ext == "doc"@ {
        (MediaSort::Document, "application/msword"@)
    } else if ext == "docx"@ {
        (
            MediaSort::Document,
            "application/vnd.openxmlformats-officedocument.wordprocessingml.document"@,
        )
    } else if ext == "xls"@ {
        (MediaSort::Document, "application/vnd.ms-excel"@)
    } else if ext == "xlsx"@ {
        (
            MediaSort::Document,
            "application/vnd.openxmlformats-officedocument.spreadsheetml.sheet"@,
        )
    } else if ext == "ppt"@ {
        (MediaSort::Document, "application/vnd.ms-powerpoint"@)
    } else if ext == "pptx"@ {
        (
            MediaSort::Document,
            "application/vnd.openxmlformats-officedocument.presentationml.presentation"@,
        )
    } else if ext == "txt"@ {
        (MediaSort::Document, "text/plain"@)
    } else if ext == "zip"@ {
        (MediaSort::Document, "application/zip"@)
    } else {
        (MediaSort::Document, "application/octet-stream"@)
    }
}

/// The sort and the type of media of a file, by the extension of its name
/// in any letter case.
pub open spec fn media_of(file_path: Seq<char>) -> (MediaSort, Seq<char>) {
    media_of_extension(lowercase(text_or(extension_of(file_path), Seq::empty())))
}

/// The sort and the type of media of a file.
pub fn detect_media_type(file_path: &str) -> (r: (MediaSort, &'static str))
    ensures
        (r.0, r.1@) == media_of(file_path@),
{
    let ext: String = match extension(file_path) {
        Some(e) => e,
        None => String::new(),
    };
    let lower = str_to_lowercase(ext.as_str());
    let e: &str = lower.as_str();
    if str_eq(e, "jpg") || str_eq(e, "jpeg") {
        (MediaSort::Image, "image/jpeg")
    } else if str_eq(e, "png") {
        (MediaSort::Image, "image/png")
    } else if str_eq(e, "gif") {
        (MediaSort::Image, "image/gif")
    } else if str_eq(e, "webp") {
        (MediaSort::Image, "image/webp")
    } else if str_eq(e, "mp4") {
        (MediaSort::Video, "video/mp4")
    } else if str_eq(e, "3gp") {
        (MediaSort::Video, "video/3gpp")
    } else if str_eq(e, "mp3") {
        (MediaSort::Audio, "audio/mpeg")
    } else if str_eq(e, "ogg") {
        (MediaSort::Audio, "audio/ogg")
    } else if str_eq(e, "amr") {
        (MediaSort::Audio, "audio/amr")
    } else if str_eq(e, "aac") {
        (MediaSort::Audio, "audio/aac")
    } else if str_eq(e, "opus") {
        (MediaSort::Audio, "audio/opus")
    } else if str_eq(e, "pdf") {
        (MediaSort::Document, "application/pdf")
    } else if str_eq(e, "doc") {
        (MediaSort::Document, "application/msword")
    } else if str_eq(e, "docx") {
        (
            MediaSort::Document,
            "application/vnd.openxmlformats-officedocument.wordprocessingml.document",
        )
    } else if str_eq(e, "xls") {
        (MediaSort::Document, "application/vnd.ms-excel")
    } else if str_eq(e, "xlsx") {
        (MediaSort::Document, "application/vnd.openxmlformats-officedocument.spreadsheetml.sheet")
    } else if str_eq(e, "ppt") {
        (MediaSort::Document, "application/vnd.ms-powerpoint")
    } else if str_eq(e, "pptx") {
        (
            MediaSort::Document,
            "application/vnd.openxmlformats-officedocument.presentationml.presentation",
        )
    } else if str_eq(e, "txt") {
        (MediaSort::Document, "text/plain")
    } else if str_eq(e, "zip") {
        (MediaSort::Document, "application/zip")
    } else {
        (MediaSort::Document, "application/octet-stream")
    }
}

/// The call that asks for the profile of the business.
pub fn profile_call(config: &WhatsAppConfig) -> (c: HttpCall)
    ensures
        c@ == (HttpCallView {
            method: Method::Get,
            url: number_url(
                *config,
                "/whatsapp_business_profile?fields=about,address,description,email,profile_picture_url,messaging_product,vertical"@,
            ),
            query: Seq::empty(),
            body: None,
        }),
{
    plain_call(
        Method::Get,
        url(
            config,
            "/whatsapp_business_profile?fields=about,address,description,email,profile_picture_url,messaging_product,vertical",
        ),
    )
}

/// The profile that an answer describes: the first of its `data`, under
/// the number of the adapter.
pub open spec fn profile_of(answer: JsonView, config: WhatsAppConfig) -> ProfileView {
    let data = first_item(items_of(answer.get("data"@)));
    ProfileView {
        platform: Platform::WhatsApp,
        id: config.phone_number_id@,
        name: text_or(text_of(member(data, "about"@)), "WhatsApp Business"@),
        username: None,
        email: non_empty(text_of(member(data, "email"@))),
        phone: None,
    }
}

/// The profile that an answer describes.
pub fn parse_profile(answer: &Json, config: &WhatsAppConfig) -> (p: Profile)
    ensures
        p@ == profile_of(answer@, *config),
{
    let data = first_of(items(answer.get("data")));
    let email: Option<String> = match text(field(data, "email")) {
        Some(e) => if is_blank(e) {
            None
        } else {
            Some(String::from_str(e))
        },
        None => None,
    };
    Profile {
        platform: Platform::WhatsApp,
        id: config.phone_number_id.clone(),
        name: owned_or(text(field(data, "about")), "WhatsApp Business"),
        username: None,
        email,
        phone: None,
    }
}

/// The failure of a listing of conversations, which the interface has not.
pub fn list_channels() -> (e: AgentError)
    ensures
        e@ == (
            ErrorKind::NotImplemented,
            "WhatsApp Cloud API does not support listing conversations. Use send_message with a phone number directly."@,
        ),
{
    AgentError::not_implemented(
        "WhatsApp Cloud API does not support listing conversations. Use send_message with a phone number directly.",
    )
}

/// The failure of a reading of history, which the interface has not.
pub fn read_messages() -> (e: AgentError)
    ensures
        e@ == (
            ErrorKind::NotImplemented,
            "WhatsApp Cloud API does not support reading message history. Messages are delivered via webhooks."@,
        ),
{
    AgentError::not_implemented(
        "WhatsApp Cloud API does not support reading message history. Messages are delivered via webhooks.",
    )
}

/// The failure of a search, which the interface has not.
pub fn search() -> (e: AgentError)
    ensures
        e@ == (ErrorKind::NotImplemented, "WhatsApp Cloud API does not support message search."@),
{
    AgentError::not_implemented("WhatsApp Cloud API does not support message search.")
}

/// The body of a text message, as a reply where a message is named.
pub open spec fn text_body(to: Seq<char>, text: Seq<char>, reply_to: Option<Seq<char>>) -> JsonView {
    let plain = JsonView::Object(Seq::empty()).with(
        "messaging_product"@,
        JsonView::Str("whatsapp"@),
    ).with("recipient_type"@, JsonView::Str("individual"@)).with("to"@, JsonView::Str(to)).with(
        "type"@,
        JsonView::Str("text"@),
    ).with("text"@, JsonView::Object(Seq::empty()).with("body"@, JsonView::Str(text)));
    match reply_to {
        Some(id) => plain.with(
            "context"@,
            JsonView::Object(Seq::empty()).with("message_id"@, JsonView::Str(id)),
        ),
        None => plain,
    }
}

/// The call that sends a text message.
pub fn send_message_call(
    config: &WhatsAppConfig,
    to: &str,
    text: &str,
    reply_to: Option<&str>,
) -> (c: HttpCall)
    ensures
        c@ == (HttpCallView {
            method: Method::Post,
            url: number_url(*config, "/messages"@),
            query: Seq::empty(),
            body: Some(text_body(to@, text@, opt_str(reply_to))),
        }),
{
    let plain = Json::object().with("messaging_product", Json::string("whatsapp")).with(
        "recipient_type",
        Json::string("individual"),
    ).with("to", Json::string(to)).with("type", Json::string("text")).with(
        "text",
        Json::object().with("body", Json::string(text)),
    );
    let body = match reply_to {
        Some(id) => plain.with("context", Json::object().with("message_id", Json::string(id))),
        None => plain,
    };
    json_call(Method::Post, url(config, "/messages"), body)
}

/// Whether every item is an object with a text `id`.
pub open spec fn all_have_ids(entries: Seq<JsonView>) -> bool {
    forall|i: int|
        0 <= i < entries.len() ==> (#[trigger] entries[i]) is Object && text_of(
            entries[i].get("id"@),
        ) is Some
}

/// The identifier of the message that an answer to a sending names: the
/// `id` of the first of its `messages`, each of which must be an object
/// with a text `id`.
pub open spec fn sent_id_of(answer: JsonView) -> Result<Seq<char>, (ErrorKind, Seq<char>)> {
    match items_of(answer.get("messages"@)) {
        Some(entries) => if !(answer is Object) || !all_have_ids(entries) {
            Err((ErrorKind::Api, "whatsapp parse send response: invalid `messages`"@))
        } else if entries.len() == 0 {
            Err((ErrorKind::Api, "whatsapp: no message id in response"@))
        } else {
            Ok(text_of(entries[0].get("id"@)).unwrap())
        },
        None => Err((ErrorKind::Api, "whatsapp parse send response: invalid `messages`"@)),
    }
}

/// The identifier of the message that an answer to a sending names.
pub fn sent_id(answer: &Json) -> (r: Result<String, AgentError>)
    ensures
        match r {
            Ok(id) => sent_id_of(answer@) == Ok::<Seq<char>, (ErrorKind, Seq<char>)>(id@),
            Err(e) => sent_id_of(answer@) == Err::<Seq<char>, (ErrorKind, Seq<char>)>(e@),
        },
{
    let entries: &Vec<Json> = match items(answer.get("messages")) {
        Some(a) => a,
        None => {
            return Err(AgentError::api("whatsapp parse send response: invalid `messages`"));
        },
    };
    if !is_object(answer) {
        return Err(AgentError::api("whatsapp parse send response: invalid `messages`"));
    }
    let ghost all = json_views(entries@);
    let mut i: usize = 0;
    while i < entries.len()
        invariant
            i <= entries.len(),
            all == json_views(entries@),
            items_of(answer@.get("messages"@)) == Some(all),
            answer@ is Object,
            forall|k: int|
                0 <= k < i ==> (#[trigger] all[k]) is Object && text_of(all[k].get("id"@))
                    is Some,
        decreases entries.len() - i,
    {
        if !is_object(&entries[i]) || text(entries[i].get("id")).is_none() {
            assert(!(all[i as int] is Object && text_of(all[i as int].get("id"@)) is Some));
            return Err(AgentError::api("whatsapp parse send response: invalid `messages`"));
        }
        i += 1;
    }
    if entries.len() == 0 {
        return Err(AgentError::api("whatsapp: no message id in response"));
    }
    match text(entries[0].get("id")) {
        Some(id) => Ok(String::from_str(id)),
        None => Err(AgentError::api("whatsapp: no message id in response")),
    }
}

/// The message that was sent as a text.
pub open spec fn sent_text_message(
    config: WhatsAppConfig,
    id: Seq<char>,
    to: Seq<char>,
    text: Seq<char>,
    reply_to: Option<Seq<char>>,
    now: i64,
) -> MessageView {
    MessageView {
        id,
        platform: Platform::WhatsApp,
        channel_id: to,
        sender: config.phone_number_id@,
        text,
        timestamp: now,
        has_attachment: false,
        reply_to,
        meta: MessageMetaView::empty(),
    }
}

/// The message that was sent as a text, at the given time.
pub fn sent_message(
    config: &WhatsAppConfig,
    id: String,
    to: &str,
    text: &str,
    reply_to: Option<&str>,
    now: i64,
) -> (m: Message)
    ensures
        m@ == sent_text_message(*config, id@, to@, text@, opt_str(reply_to), now),
{
    Message {
        id,
        platform: Platform::WhatsApp,
        channel_id: String::from_str(to),
        sender: config.phone_number_id.clone(),
        text: String::from_str(text),
        timestamp: now,
        has_attachment: false,
        reply_to: match reply_to {
            Some(r) => Some(String::from_str(r)),
            None => None,
        },
        meta: MessageMeta::default(),
    }
}

/// What the upload of media sends besides the bytes of the file.
#[derive(Debug)]
pub struct MediaUpload {
    pub url: String,
    /// The name under which the file is sent.
    pub file_name: String,
    /// The type of the media.
    pub mime: &'static str,
    /// The sort of the media.
    pub sort: MediaSort,
}

/// The upload of a file: under its name, `file` where the path leads to
/// none, with the type that its extension suggests; the refusal of a path
/// with a component `..`.
pub fn upload_plan(config: &WhatsAppConfig, file_path: &str) -> (r: Result<MediaUpload, AgentError>)
    ensures
        match r {
            Ok(u) => {
                &&& !has_parent_dir(file_path@)
                &&& u.url@ == number_url(*config, "/media"@)
                &&& u.file_name@ == text_or(base_name(file_path@), "file"@)
                &&& (u.sort, u.mime@) == media_of(file_path@)
            },
            Err(e) => has_parent_dir(file_path@) && e@ == (
                ErrorKind::InvalidInput,
                "file_path must not contain '..' components"@,
            ),
        },
{
    if contains_parent_dir(file_path) {
        return Err(AgentError::invalid_input("file_path must not contain '..' components"));
    }
    let (sort, mime) = detect_media_type(file_path);
    let name: String = match file_name(file_path) {
        Some(n) => n,
        None => String::from_str("file"),
    };
    Ok(MediaUpload { url: url(config, "/media"), file_name: name, mime, sort })
}

/// The identifier under which uploaded media is kept: the text `id` of the
/// answer, which must be an object.
pub open spec fn media_id_of(answer: JsonView) -> Result<Seq<char>, (ErrorKind, Seq<char>)> {
    match text_of(answer.get("id"@)) {
        Some(id) => Ok(id),
        None => Err((ErrorKind::Api, "whatsapp parse upload response: missing `id`"@)),
    }
}

/// The identifier under which uploaded media is kept.
pub fn media_id(answer: &Json) -> (r: Result<String, AgentError>)
    ensures
        match r {
            Ok(id) => media_id_of(answer@) == Ok::<Seq<char>, (ErrorKind, Seq<char>)>(id@),
            Err(e) => media_id_of(answer@) == Err::<Seq<char>, (ErrorKind, Seq<char>)>(e@),
        },
{
    match text(answer.get("id")) {
        Some(id) => Ok(String::from_str(id)),
        None => Err(AgentError::api("whatsapp parse upload response: missing `id`")),
    }
}

/// The body of a media message: the media by its identifier, with the
/// caption where there is one and the sort of media can carry it.
pub open spec fn media_body(
    to: Seq<char>,
    sort: MediaSort,
    media_id: Seq<char>,
    caption: Seq<char>,
) -> JsonView {
    let by_id = JsonView::Object(Seq::empty()).with("id"@, JsonView::Str(media_id));
    let media = if caption.len() == 0 || sort == MediaSort::Audio {
        by_id
    } else {
        by_id.with("caption"@, JsonView::Str(caption))
    };
    JsonView::Object(Seq::empty()).with("messaging_product"@, JsonView::Str("whatsapp"@)).with(
        "to"@,
        JsonView::Str(to),
    ).with("type"@, JsonView::Str(sort_name(sort))).with(sort_name(sort), media)
}

/// The call that sends uploaded media.
pub fn send_media_call(
    config: &WhatsAppConfig,
    to: &str,
    sort: MediaSort,
    media_id: &str,
    caption: &str,
) -> (c: HttpCall)
    ensures
        c@ == (HttpCallView {
            method: Method::Post,
            url: number_url(*config, "/messages"@),
            query: Seq::empty(),
            body: Some(media_body(to@, sort, media_id@, caption@)),
        }),
{
    let by_id = Json::object().with("id", Json::string(media_id));
    let media = if is_blank(caption) || !sort.supports_caption() {
        by_id
    } else {
        by_id.with("caption", Json::string(caption))
    };
    let body = Json::object().with("messaging_product", Json::string("whatsapp")).with(
        "to",
        Json::string(to),
    ).with("type", Json::string(sort.name())).with(sort.name(), media);
    json_call(Method::Post, url(config, "/messages"), body)
}

/// The message that was sent as media, at the given time.
pub fn sent_media_message(
    config: &WhatsAppConfig,
    id: String,
    to: &str,
    caption: &str,
    sort: MediaSort,
    now: i64,
) -> (m: Message)
    ensures
        m@ == (MessageView {
            id: id@,
            platform: Platform::WhatsApp,
            channel_id: to@,
            sender: config.phone_number_id@,
            text: caption@,
            timestamp: now,
            has_attachment: true,
            reply_to: None,
            meta: MessageMetaView { media_type: Some(sort_name(sort)), ..MessageMetaView::empty() },
        }),
{
    let mut meta = MessageMeta::default();
    meta.media_type = Some(String::from_str(sort.name()));
    Message {
        id,
        platform: Platform::WhatsApp,
        channel_id: String::from_str(to),
        sender: config.phone_number_id.clone(),
        text: String::from_str(caption),
        timestamp: now,
        has_attachment: true,
        reply_to: None,
        meta,
    }
}

} // verus!
