use vstd::prelude::*;
use crate::errors::PluginError;
use crate::plugin::{ActionResult, PluginAction, PluginEvent, PluginHealthStatus};
use crate::plugins_config::SlackConfig;

verus! {

/// What the messaging provider reports about the authenticated bot.
#[derive(Debug)]
pub struct SlackAuthInfo {
    pub user_id: String,
    pub user: String,
    pub team: String,
}

/// One remote call the messaging plugin asks its provider to make; the
/// transport performs it and reports back.
#[derive(Debug)]
pub enum SlackRequest {
    PostMessage { channel: String, text: String, thread_ts: Option<String> },
    UpdateMessage { channel: String, ts: String, text: String },
    AddReaction { channel: String, timestamp: String, name: String },
}

impl SlackRequest {
    /// The provider API method each request maps onto.
    pub fn endpoint(&self) -> (r: &'static str)
        ensures
            *self is PostMessage ==> r@ == "chat.postMessage"@,
            *self is UpdateMessage ==> r@ == "chat.update"@,
            *self is AddReaction ==> r@ == "reactions.add"@,
    {
        match self {
            SlackRequest::PostMessage { .. } => "chat.postMessage",
            SlackRequest::UpdateMessage { .. } => "chat.update",
            SlackRequest::AddReaction { .. } => "reactions.add",
        }
    }
}

/// The messaging plugin: its configuration and where it stands in its
/// lifecycle. The HTTP transport lives outside; every decision about
/// what to send and how to read replies is made here.
#[derive(Debug)]
pub struct SlackPlugin {
    pub config: SlackConfig,
    pub initialized: bool,
    pub bot_user_id: Option<String>,
}

impl SlackPlugin {
    /// A fresh, uninitialized plugin around its configuration.
    pub fn new(config: SlackConfig) -> (r: SlackPlugin)
        ensures
            r.config == config,
            !r.initialized,
            r.bot_user_id is None,
    {
        SlackPlugin { config, initialized: false, bot_user_id: None }
    }

    /// The token to present: the configured one wins, else the one the
    /// caller resolved from the environment, else an authentication
    /// error.
    pub fn get_token(&self, env_token: Option<&str>) -> (r: Result<String, PluginError>)
        ensures
            self.config.token matches Some(t) ==> r matches Ok(k) && k@ == t@,
            self.config.token is None ==> match env_token {
                Some(t) => r matches Ok(k) && k@ == t@,
                None => r matches Err(e) && e is AuthError,
            },
    {
        match &self.config.token {
            Some(t) => Ok(t.clone()),
            None => match env_token {
                Some(t) => Ok(String::from_str(t)),
                None => Err(
                    PluginError::AuthError(
                        String::from_str("SLACK_BOT_TOKEN not set and no token in config"),
                    ),
                ),
            },
        }
    }

    /// The plugin's name.
    pub fn name(&self) -> (r: &'static str)
        ensures
            r@ == "slack"@,
    {
        "slack"
    }

    /// The plugin's version.
    pub fn version(&self) -> (r: &'static str)
        ensures
            r@ == "2.0.0"@,
    {
        "2.0.0"
    }

    /// What this plugin does.
    pub fn description(&self) -> (r: &'static str)
        ensures
            r@ == "Slack integration for sending and receiving messages"@,
    {
        "Slack integration for sending and receiving messages"
    }

    /// Whether this plugin is switched on.
    pub fn is_enabled(&self) -> (r: bool)
        ensures
            r == self.config.enabled,
    {
        self.config.enabled
    }

    /// Take in the authentication probe's outcome: a disabled plugin
    /// skips initialization, a failed probe fails fast and leaves the
    /// plugin uninitialized, a successful one records the bot identity.
    pub fn initialize(&mut self, auth: Result<SlackAuthInfo, String>) -> (r: Result<
        (),
        PluginError,
    >)
        ensures
            !old(self).config.enabled ==> {
                &&& r is Ok
                &&& *final(self) == *old(self)
            },
            (old(self).config.enabled && auth is Ok) ==> {
                &&& r is Ok
                &&& final(self).initialized
                &&& final(self).bot_user_id matches Some(u) && u@ == auth->Ok_0.user_id@
                &&& final(self).config == old(self).config
            },
            (old(self).config.enabled && auth is Err) ==> {
                &&& r matches Err(e) && e is InitializationFailed
                &&& *final(self) == *old(self)
            },
    {
        if !self.config.enabled {
            return Ok(());
        }
        match auth {
            Ok(info) => {
                self.bot_user_id = Some(info.user_id);
                self.initialized = true;
                Ok(())
            },
            Err(msg) => Err(PluginError::InitializationFailed(msg)),
        }
    }

    /// Shut down: nothing stays held, and shutting down twice is the
    /// same as once.
    pub fn shutdown(&mut self) -> (r: Result<(), PluginError>)
        ensures
            r is Ok,
            !final(self).initialized,
            final(self).config == old(self).config,
            final(self).bot_user_id == old(self).bot_user_id,
    {
        self.initialized = false;
        Ok(())
    }

    /// Drain buffered provider events. This integration receives none
    /// without a socket connection, so the list is always empty rather
    /// than an error.
    pub fn listen(&mut self) -> (r: Result<Vec<PluginEvent>, PluginError>)
        ensures
            r matches Ok(evs) && evs@.len() == 0,
            *final(self) == *old(self),
    {
        Ok(Vec::new())
    }

    /// Translate one action into the remote call that carries it out;
    /// an action of another plugin is a typed failure.
    pub fn request_for_action(&self, action: PluginAction) -> (r: Result<
        SlackRequest,
        PluginError,
    >)
        ensures
            match action {
                PluginAction::SlackSendMessage { channel, text, thread_ts } => r matches Ok(
                    SlackRequest::PostMessage { channel: c, text: t, thread_ts: th },
                ) && c == channel && t == text && th == thread_ts,
                PluginAction::SlackUpdateMessage { channel, timestamp, text } => r matches Ok(
                    SlackRequest::UpdateMessage { channel: c, ts, text: t },
                ) && c == channel && ts == timestamp && t == text,
                PluginAction::SlackAddReaction { channel, timestamp, reaction } => r matches Ok(
                    SlackRequest::AddReaction { channel: c, timestamp: ts, name },
                ) && c == channel && ts == timestamp && name == reaction,
                _ => r matches Err(e) && e is ActionFailed,
            },
    {
        match action {
            PluginAction::SlackSendMessage { channel, text, thread_ts } => Ok(
                SlackRequest::PostMessage { channel, text, thread_ts },
            ),
            PluginAction::SlackUpdateMessage { channel, timestamp, text } => Ok(
                SlackRequest::UpdateMessage { channel, ts: timestamp, text },
            ),
            PluginAction::SlackAddReaction { channel, timestamp, reaction } => Ok(
                SlackRequest::AddReaction { channel, timestamp, name: reaction },
            ),
            _ => Err(
                PluginError::ActionFailed(
                    String::from_str("Action not supported by Slack plugin"),
                ),
            ),
        }
    }

    /// Read a provider reply: success passes, the provider's throttling
    /// signal becomes the distinguished rate-limit error, and any other
    /// failure surfaces the provider's message verbatim.
    pub fn interpret_api_response(&self, ok: bool, error: Option<String>) -> (r: Result<
        (),
        PluginError,
    >)
        ensures
            ok ==> r is Ok,
            !ok ==> match error {
                Some(e) => if e@ == "ratelimited"@ {
                    r matches Err(pe) && pe is RateLimited
                } else {
                    r matches Err(pe) && (pe matches PluginError::ActionFailed(m) && m@ == e@)
                },
                None => r matches Err(pe) && (pe matches PluginError::ActionFailed(m) && m@
                    == "Unknown error"@),
            },
    {
        if ok {
            return Ok(());
        }
        match error {
            Some(e) => {
                if crate::strutil::str_eq(e.as_str(), "ratelimited") {
                    Err(PluginError::RateLimited)
                } else {
                    Err(PluginError::ActionFailed(e))
                }
            },
            None => Err(PluginError::ActionFailed(String::from_str("Unknown error"))),
        }
    }

    /// Fold a health probe's outcome into a status report; a disabled
    /// or uninitialized plugin is unhealthy without any probe.
    pub fn health_check(&self, probe: Result<(), String>) -> (r: PluginHealthStatus)
        ensures
            !self.config.enabled ==> !r.healthy,
            (self.config.enabled && !self.initialized) ==> !r.healthy,
            (self.config.enabled && self.initialized && probe is Err) ==> !r.healthy,
            (self.config.enabled && self.initialized && probe is Ok) ==> r.healthy,
    {
        if !self.config.enabled {
            return PluginHealthStatus::unhealthy("Plugin is disabled");
        }
        if !self.initialized {
            return PluginHealthStatus::unhealthy("Plugin not initialized");
        }
        match probe {
            Ok(()) => PluginHealthStatus::healthy(),
            Err(e) => PluginHealthStatus::unhealthy(e.as_str()),
        }
    }

    /// Build the action result for a delivered or updated message: the
    /// provider's timestamp and channel, under those names.
    pub fn message_result(&self, ts: &str, channel: &str) -> (r: ActionResult)
        ensures
            r.success,
            r.error is None,
            r.data matches Some(d) && (d matches crate::json::JsonValue::Obj(e) && {
                &&& (crate::json::lookup(e@, "ts"@) matches Some(crate::json::JsonValue::Str(t))
                    && t@ == ts@)
                &&& (crate::json::lookup(e@, "channel"@) matches Some(
                    crate::json::JsonValue::Str(c),
                ) && c@ == channel@)
            }),
    {
        proof {
            broadcast use vstd::string::group_string_axioms;

            reveal_strlit("ts");
            reveal_strlit("channel");
            assert("ts"@.len() == 2);
            assert("channel"@.len() == 7);
            assert("ts"@ != "channel"@);
        }
        let mut entries: Vec<(String, crate::json::JsonValue)> = Vec::new();
        entries.push(
            (String::from_str("ts"), crate::json::JsonValue::Str(String::from_str(ts))),
        );
        entries.push(
            (String::from_str("channel"), crate::json::JsonValue::Str(String::from_str(channel))),
        );
        proof {
            let e = entries@;
            assert(crate::json::lookup(e, "ts"@) == Some(e[0].1));
            assert(e.drop_first() =~= seq![e[1]]);
            assert(crate::json::lookup(e.drop_first(), "channel"@) == Some(e[1].1));
            assert(crate::json::lookup(e, "channel"@) == Some(e[1].1));
        }
        ActionResult::success(Some(crate::json::JsonValue::Obj(entries)))
    }
}

} // verus!
