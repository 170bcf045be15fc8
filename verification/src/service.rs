//! The registry of adapters, one for each platform at most, and the rules
//! that every request has to meet before it reaches an adapter.

use crate::entities::{platform_name, Platform};
use crate::error::{AgentError, ErrorKind};
use crate::text::{glue, trim, trimmed};
use vstd::prelude::*;

verus! {

/// A limit brought into bounds: the default where none is given, else the
/// limit raised to the minimum and then cut to the maximum.
pub open spec fn clamped(val: nat, min: nat, max: nat, default: nat) -> nat {
    if val == 0 {
        default
    } else if val < min {
        if min < max {
            min
        } else {
            max
        }
    } else if val < max {
        val
    } else {
        max
    }
}

/// A limit brought into bounds.
pub fn clamp(val: usize, min: usize, max: usize, default: usize) -> (r: usize)
    ensures
        r == clamped(val as nat, min as nat, max as nat, default as nat),
{
    if val == 0 {
        default
    } else {
        let raised: usize = if val < min {
            min
        } else {
            val
        };
        if raised < max {
            raised
        } else {
            max
        }
    }
}

/// The refusal of a value that holds nothing but whitespace.
pub open spec fn empty_value(name: Seq<char>) -> (ErrorKind, Seq<char>) {
    (ErrorKind::InvalidInput, name + " cannot be empty"@)
}

/// Whether a value holds more than whitespace.
pub open spec fn is_filled(val: Seq<char>) -> bool {
    trimmed(val).len() > 0
}

/// Refuses a value that holds nothing but whitespace, under its name.
pub fn validate_not_empty(val: &str, name: &str) -> (r: Result<(), AgentError>)
    ensures
        match r {
            Ok(_) => is_filled(val@),
            Err(e) => !is_filled(val@) && e@ == empty_value(name@),
        },
{
    let t = trim(val);
    if t.as_str().unicode_len() == 0 {
        Err(AgentError::InvalidInput(glue(name, " cannot be empty")))
    } else {
        Ok(())
    }
}

/// How many channels a listing may ask for.
pub open spec fn channels_limit(limit: nat) -> nat {
    clamped(limit, 1, 100, 20)
}

/// How many messages a reading may ask for.
pub open spec fn messages_limit(limit: nat) -> nat {
    clamped(limit, 1, 200, 20)
}

/// How many messages a search may ask for.
pub open spec fn search_limit(limit: nat) -> nat {
    clamped(limit, 1, 100, 20)
}

/// The failure of a request for a platform without an adapter.
pub open spec fn not_available(platform: Platform) -> (ErrorKind, Seq<char>) {
    (ErrorKind::PlatformNotAvailable, platform_name(platform))
}

/// The adapters of the platforms.
pub struct AgentService<A> {
    telegram: Option<A>,
    gmail: Option<A>,
    whatsapp: Option<A>,
    slack: Option<A>,
    discord: Option<A>,
}

/// The platforms in the order in which they are listed.
pub open spec fn all_platforms() -> Seq<Platform> {
    seq![
        Platform::Telegram,
        Platform::Gmail,
        Platform::WhatsApp,
        Platform::Slack,
        Platform::Discord,
    ]
}

impl<A> AgentService<A> {
    /// The adapter registered for a platform.
    pub closed spec fn adapter(&self, platform: Platform) -> Option<A> {
        match platform {
            Platform::Telegram => self.telegram,
            Platform::Gmail => self.gmail,
            Platform::WhatsApp => self.whatsapp,
            Platform::Slack => self.slack,
            Platform::Discord => self.discord,
        }
    }

    /// A service without adapters.
    pub fn new() -> (s: AgentService<A>)
        ensures
            forall|p: Platform| s.adapter(p) is None,
    {
        AgentService { telegram: None, gmail: None, whatsapp: None, slack: None, discord: None }
    }

    /// Registers the adapter of a platform, in place of an earlier one.
    pub fn register(&mut self, platform: Platform, adapter: A)
        ensures
            final(self).adapter(platform) == Some(adapter),
            forall|p: Platform| p != platform ==> final(self).adapter(p) == old(self).adapter(p),
    {
        match platform {
            Platform::Telegram => {
                self.telegram = Some(adapter);
            },
            Platform::Gmail => {
                self.gmail = Some(adapter);
            },
            Platform::WhatsApp => {
                self.whatsapp = Some(adapter);
            },
            Platform::Slack => {
                self.slack = Some(adapter);
            },
            Platform::Discord => {
                self.discord = Some(adapter);
            },
        }
    }

    /// The adapter of a platform, or the failure that names the platform
    /// where none is registered.
    pub fn get(&self, platform: Platform) -> (r: Result<&A, AgentError>)
        ensures
            match r {
                Ok(a) => self.adapter(platform) == Some(*a),
                Err(e) => self.adapter(platform) is None && e@ == not_available(platform),
            },
    {
        let slot: &Option<A> = match platform {
            Platform::Telegram => &self.telegram,
            Platform::Gmail => &self.gmail,
            Platform::WhatsApp => &self.whatsapp,
            Platform::Slack => &self.slack,
            Platform::Discord => &self.discord,
        };
        match slot {
            Some(a) => Ok(a),
            None => Err(AgentError::platform_not_available(platform.name())),
        }
    }

    /// The platforms that have an adapter, in the order of `all_platforms`.
    pub fn available_platforms(&self) -> (r: Vec<Platform>)
        ensures
            r@ == all_platforms().filter(|p: Platform| self.adapter(p) is Some),
    {
        let mut r: Vec<Platform> = Vec::new();
        let ghost has = |p: Platform| self.adapter(p) is Some;
        let ghost s0 = Seq::<Platform>::empty();
        let ghost s1 = s0.push(Platform::Telegram);
        let ghost s2 = s1.push(Platform::Gmail);
        let ghost s3 = s2.push(Platform::WhatsApp);
        let ghost s4 = s3.push(Platform::Slack);
        let ghost s5 = s4.push(Platform::Discord);
        proof {
            reveal(Seq::filter);
            s0.lemma_filter_push(Platform::Telegram, has);
            s1.lemma_filter_push(Platform::Gmail, has);
            s2.lemma_filter_push(Platform::WhatsApp, has);
            s3.lemma_filter_push(Platform::Slack, has);
            s4.lemma_filter_push(Platform::Discord, has);
            assert(s5 =~= all_platforms());
        }
        if self.telegram.is_some() {
            r.push(Platform::Telegram);
        }
        if self.gmail.is_some() {
            r.push(Platform::Gmail);
        }
        if self.whatsapp.is_some() {
            r.push(Platform::WhatsApp);
        }
        if self.slack.is_some() {
            r.push(Platform::Slack);
        }
        if self.discord.is_some() {
            r.push(Platform::Discord);
        }
        r
    }

    /// The adapter that gives the profile of a platform.
    pub fn get_profile(&self, platform: Platform) -> (r: Result<&A, AgentError>)
        ensures
            match r {
                Ok(a) => self.adapter(platform) == Some(*a),
                Err(e) => self.adapter(platform) is None && e@ == not_available(platform),
            },
    {
        self.get(platform)
    }

    /// The adapter that lists the channels of a platform, and how many it
    /// is asked for: between 1 and 100, and 20 where no limit is given.
    pub fn list_channels(&self, platform: Platform, limit: usize) -> (r: Result<
        (&A, usize),
        AgentError,
    >)
        ensures
            match r {
                Ok((a, n)) => self.adapter(platform) == Some(*a) && n == channels_limit(
                    limit as nat,
                ),
                Err(e) => self.adapter(platform) is None && e@ == not_available(platform),
            },
    {
        let n = clamp(limit, 1, 100, 20);
        match self.get(platform) {
            Ok(a) => Ok((a, n)),
            Err(e) => Err(e),
        }
    }

    /// The adapter that reads the messages of a channel, and how many it is
    /// asked for: between 1 and 200, and 20 where no limit is given. An
    /// empty channel name is refused before the platform is looked at.
    pub fn read_messages(&self, platform: Platform, channel: &str, limit: usize) -> (r: Result<
        (&A, usize),
        AgentError,
    >)
        ensures
            match r {
                Ok((a, n)) => is_filled(channel@) && self.adapter(platform) == Some(*a) && n
                    == messages_limit(limit as nat),
                Err(e) => if !is_filled(channel@) {
                    e@ == empty_value("channel"@)
                } else {
                    self.adapter(platform) is None && e@ == not_available(platform)
                },
            },
    {
        match validate_not_empty(channel, "channel") {
            Ok(_) => {},
            Err(e) => {
                return Err(e);
            },
        }
        let n = clamp(limit, 1, 200, 20);
        match self.get(platform) {
            Ok(a) => Ok((a, n)),
            Err(e) => Err(e),
        }
    }

    /// The adapter that sends a message to a channel. An empty channel
    /// name and then an empty text are refused before the platform is
    /// looked at.
    pub fn send_message(&self, platform: Platform, channel: &str, text: &str) -> (r: Result<
        &A,
        AgentError,
    >)
        ensures
            match r {
                Ok(a) => is_filled(channel@) && is_filled(text@) && self.adapter(platform) == Some(
                    *a,
                ),
                Err(e) => if !is_filled(channel@) {
                    e@ == empty_value("channel"@)
                } else if !is_filled(text@) {
                    e@ == empty_value("text"@)
                } else {
                    self.adapter(platform) is None && e@ == not_available(platform)
                },
            },
    {
        match validate_not_empty(channel, "channel") {
            Ok(_) => {},
            Err(e) => {
                return Err(e);
            },
        }
        match validate_not_empty(text, "text") {
            Ok(_) => {},
            Err(e) => {
                return Err(e);
            },
        }
        self.get(platform)
    }

    /// The adapter that searches a platform, and how many messages it is
    /// asked for: between 1 and 100, and 20 where no limit is given. An
    /// empty query is refused before the platform is looked at.
    pub fn search(&self, platform: Platform, query: &str, limit: usize) -> (r: Result<
        (&A, usize),
        AgentError,
    >)
        ensures
            match r {
                Ok((a, n)) => is_filled(query@) && self.adapter(platform) == Some(*a) && n
                    == search_limit(limit as nat),
                Err(e) => if !is_filled(query@) {
                    e@ == empty_value("query"@)
                } else {
                    self.adapter(platform) is None && e@ == not_available(platform)
                },
            },
    {
        match validate_not_empty(query, "query") {
            Ok(_) => {},
            Err(e) => {
                return Err(e);
            },
        }
        let n = clamp(limit, 1, 100, 20);
        match self.get(platform) {
            Ok(a) => Ok((a, n)),
            Err(e) => Err(e),
        }
    }
}

/// A limit brought into bounds lies within them, and a limit within them
/// stays as it is.
pub proof fn lemma_clamped_within(val: nat, min: nat, max: nat, default: nat)
    requires
        min <= max,
        min <= default <= max,
    ensures
        min <= clamped(val, min, max, default) <= max,
        min <= val <= max && val != 0 ==> clamped(val, min, max, default) == val,
{
}

} // verus!
