use vstd::prelude::*;
use crate::errors::CommunicationError;
use crate::json::{JsonValue, lookup};
use crate::plugins_config::{EmailConfig, FileWatcherConfig, GitHubConfig, PluginConfig, SignalConfig, SlackConfig, SummaryFrequency};
use crate::strutil::{all_digits, digits_value, opt_view, views_of};

verus! {

/// A boolean field: absent means the default, anything but a boolean is
/// a type error.
pub open spec fn field_bool(
    e: Seq<(String, JsonValue)>,
    key: Seq<char>,
    dflt: bool,
) -> Option<bool> {
    match lookup(e, key) {
        None => Some(dflt),
        Some(JsonValue::Bool(b)) => Some(b),
        Some(_) => None,
    }
}

/// A string field with a default.
pub open spec fn field_string(
    e: Seq<(String, JsonValue)>,
    key: Seq<char>,
    dflt: Seq<char>,
) -> Option<Seq<char>> {
    match lookup(e, key) {
        None => Some(dflt),
        Some(JsonValue::Str(s)) => Some(s@),
        Some(_) => None,
    }
}

/// An optional string field: absent or null both mean "none".
pub open spec fn field_opt_string(e: Seq<(String, JsonValue)>, key: Seq<char>) -> Option<
    Option<Seq<char>>,
> {
    match lookup(e, key) {
        None => Some(None),
        Some(JsonValue::Null) => Some(None),
        Some(JsonValue::Str(s)) => Some(Some(s@)),
        Some(_) => None,
    }
}

/// The texts of a list of string values, or nothing when an element is
/// not a string.
pub open spec fn string_list(items: Seq<JsonValue>) -> Option<Seq<Seq<char>>>
    decreases items.len(),
{
    if items.len() == 0 {
        Some(Seq::empty())
    } else {
        match items[0] {
            JsonValue::Str(s) => match string_list(items.drop_first()) {
                Some(rest) => Some(seq![s@] + rest),
                None => None,
            },
            _ => None,
        }
    }
}

/// A list-of-strings field, empty by default.
pub open spec fn field_string_list(e: Seq<(String, JsonValue)>, key: Seq<char>) -> Option<
    Seq<Seq<char>>,
> {
    match lookup(e, key) {
        None => Some(Seq::empty()),
        Some(JsonValue::Arr(items)) => string_list(items@),
        Some(_) => None,
    }
}

/// An unsigned number field with a default; only plain digit runs that
/// fit the range are accepted.
pub open spec fn field_uint(
    e: Seq<(String, JsonValue)>,
    key: Seq<char>,
    dflt: int,
    max: int,
) -> Option<int> {
    match lookup(e, key) {
        None => Some(dflt),
        Some(JsonValue::Num(t)) => if t@.len() > 0 && all_digits(t@) && digits_value(t@) <= max {
            Some(digits_value(t@))
        } else {
            None
        },
        Some(_) => None,
    }
}

/// A summary-frequency field, `Daily` by default.
pub open spec fn field_summary(e: Seq<(String, JsonValue)>, key: Seq<char>) -> Option<
    SummaryFrequency,
> {
    match lookup(e, key) {
        None => Some(SummaryFrequency::Daily),
        Some(JsonValue::Str(s)) => if s@ == "realtime"@ {
            Some(SummaryFrequency::Realtime)
        } else if s@ == "hourly"@ {
            Some(SummaryFrequency::Hourly)
        } else if s@ == "daily"@ {
            Some(SummaryFrequency::Daily)
        } else {
            None
        },
        Some(_) => None,
    }
}

/// Read a list of strings out of JSON values.
#[verifier::loop_isolation(false)]
pub fn decode_string_list(items: &Vec<JsonValue>) -> (r: Result<Vec<String>, CommunicationError>)
    ensures
        r is Ok <==> string_list(items@) is Some,
        r is Ok ==> Some(views_of(r->Ok_0@)) == string_list(items@),
        r is Err ==> r->Err_0 is JsonError,
{
    let n = items.len();
    let mut out: Vec<String> = Vec::new();
    proof {
        assert(items@.subrange(0, n as int) =~= items@);
        assert(views_of(out@) =~= Seq::<Seq<char>>::empty());
    }
    let mut i: usize = 0;
    while i < n
        invariant
            n == items@.len(),
            i <= n,
            string_list(items@) is Some <==> string_list(items@.subrange(i as int, n as int))
                is Some,
            string_list(items@) matches Some(all) ==> string_list(
                items@.subrange(i as int, n as int),
            ) matches Some(rest) && all == views_of(out@) + rest,
        decreases n - i,
    {
        let ghost pre = items@.subrange(i as int, n as int);
        match &items[i] {
            JsonValue::Str(s) => {
                out.push(s.clone());
            }
            _ => {
                proof {
                    assert(pre[0] == items@[i as int]);
                }
                return Err(CommunicationError::JsonError(String::from_str(
                    "expected a string",
                )));
            }
        }
        proof {
            assert(pre[0] == items@[i as int]);
            assert(pre.drop_first() =~= items@.subrange(i + 1, n as int));
            match string_list(items@) {
                Some(all) => {
                    assert(string_list(pre) matches Some(rest) && rest == seq![
                        items@[i as int]->Str_0@,
                    ] + string_list(pre.drop_first()).unwrap());
                    assert(views_of(out@) =~= views_of(out@.drop_last()).push(
                        items@[i as int]->Str_0@,
                    ));
                    assert(views_of(out@.drop_last()) + string_list(pre).unwrap() =~= views_of(out@)
                        + string_list(pre.drop_first()).unwrap());
                }
                None => {}
            }
        }
        i += 1;
    }
    proof {
        assert(items@.subrange(n as int, n as int) =~= Seq::<JsonValue>::empty());
        match string_list(items@) {
            Some(all) => {
                assert(string_list(items@.subrange(n as int, n as int)) == Some(
                    Seq::<Seq<char>>::empty(),
                ));
                assert(all =~= views_of(out@));
            }
            None => {}
        }
    }
    Ok(out)
}

/// The field-wise conditions under which a slack object decodes.
pub open spec fn slack_decodable(e: Seq<(String, JsonValue)>) -> bool {
    &&& field_bool(e, "enabled"@, false) is Some
    &&& field_string(e, "workspace"@, Seq::empty()) is Some
    &&& field_string_list(e, "channels"@) is Some
    &&& field_bool(e, "threadNotifications"@, true) is Some
    &&& field_summary(e, "summaryFrequency"@) is Some
    &&& field_opt_string(e, "botUserId"@) is Some
    &&& field_opt_string(e, "token"@) is Some
}

/// The decoded slack settings, field by field.
pub open spec fn slack_matches(c: SlackConfig, e: Seq<(String, JsonValue)>) -> bool {
    &&& Some(c.enabled) == field_bool(e, "enabled"@, false)
    &&& Some(c.workspace@) == field_string(e, "workspace"@, Seq::empty())
    &&& Some(views_of(c.channels@)) == field_string_list(e, "channels"@)
    &&& Some(c.thread_notifications) == field_bool(e, "threadNotifications"@, true)
    &&& Some(c.summary_frequency) == field_summary(e, "summaryFrequency"@)
    &&& Some(opt_view(c.bot_user_id)) == field_opt_string(e, "botUserId"@)
    &&& Some(opt_view(c.token)) == field_opt_string(e, "token"@)
}

/// Decode slack settings from a configuration object; any field of the
/// wrong shape is an error, any missing field takes its default.
pub fn decode_slack(v: &JsonValue) -> (r: Result<SlackConfig, CommunicationError>)
    ensures
        *v matches JsonValue::Obj(entries) ==> {
            &&& r is Ok <==> slack_decodable(entries@)
            &&& r is Ok ==> slack_matches(r->Ok_0, entries@)
        },
        !(*v is Obj) ==> r is Err,
        r is Err ==> r->Err_0 is JsonError,
{
    let ghost entries = v->Obj_0@;
    if !matches!(v, JsonValue::Obj(_)) {
        return Err(CommunicationError::JsonError(String::from_str("expected an object")));
    }
    let mut c = SlackConfig::default();
    match crate::json::get(v, "enabled") {
        None => {},
        Some(JsonValue::Bool(b)) => {
            c.enabled = *b;
        },
        Some(_) => {
            return Err(CommunicationError::JsonError(String::from_str("enabled")));
        },
    }
    match crate::json::get(v, "workspace") {
        None => {},
        Some(JsonValue::Str(s)) => {
            c.workspace = s.clone();
        },
        Some(_) => {
            return Err(CommunicationError::JsonError(String::from_str("workspace")));
        },
    }
    match crate::json::get(v, "channels") {
        None => {},
        Some(JsonValue::Arr(items)) => {
            c.channels = decode_string_list(items)?;
        },
        Some(_) => {
            return Err(CommunicationError::JsonError(String::from_str("channels")));
        },
    }
    match crate::json::get(v, "threadNotifications") {
        None => {},
        Some(JsonValue::Bool(b)) => {
            c.thread_notifications = *b;
        },
        Some(_) => {
            return Err(CommunicationError::JsonError(String::from_str("threadNotifications")));
        },
    }
    match crate::json::get(v, "summaryFrequency") {
        None => {},
        Some(JsonValue::Str(s)) => {
            if crate::strutil::str_eq(s.as_str(), "realtime") {
                c.summary_frequency = SummaryFrequency::Realtime;
            } else if crate::strutil::str_eq(s.as_str(), "hourly") {
                c.summary_frequency = SummaryFrequency::Hourly;
            } else if crate::strutil::str_eq(s.as_str(), "daily") {
                c.summary_frequency = SummaryFrequency::Daily;
            } else {
                return Err(CommunicationError::JsonError(String::from_str("summaryFrequency")));
            }
        },
        Some(_) => {
            return Err(CommunicationError::JsonError(String::from_str("summaryFrequency")));
        },
    }
    match crate::json::get(v, "botUserId") {
        None => {},
        Some(JsonValue::Null) => {},
        Some(JsonValue::Str(s)) => {
            c.bot_user_id = Some(s.clone());
        },
        Some(_) => {
            return Err(CommunicationError::JsonError(String::from_str("botUserId")));
        },
    }
    match crate::json::get(v, "token") {
        None => {},
        Some(JsonValue::Null) => {},
        Some(JsonValue::Str(s)) => {
            c.token = Some(s.clone());
        },
        Some(_) => {
            return Err(CommunicationError::JsonError(String::from_str("token")));
        },
    }
    proof {
        if c.channels@.len() == 0 {
            assert(views_of(c.channels@) =~= Seq::<Seq<char>>::empty());
        }
    }
    Ok(c)
}


/// Parse an unsigned decimal text, refusing empty runs, other characters
/// and values over `max`.
#[verifier::loop_isolation(false)]
pub fn parse_uint(t: &str, max: u64) -> (r: Option<u64>)
    ensures
        match r {
            Some(x) => t@.len() > 0 && all_digits(t@) && x == digits_value(t@) && x <= max,
            None => !(t@.len() > 0 && all_digits(t@) && digits_value(t@) <= max),
        },
{
    let n = t.unicode_len();
    if n == 0 {
        return None;
    }
    let mut acc: u64 = 0;
    let ghost mut overflowed = false;
    let mut over = false;
    let mut i: usize = 0;
    while i < n
        invariant
            n == t@.len(),
            i <= n,
            all_digits(t@.subrange(0, i as int)),
            !over ==> acc == digits_value(t@.subrange(0, i as int)) && acc <= max,
            over ==> digits_value(t@.subrange(0, i as int)) > max,
        decreases n - i,
    {
        let c = t.get_char(i);
        if !('0' <= c && c <= '9') {
            return None;
        }
        let d: u64 = ((c as u8) - ('0' as u8)) as u64;
        let ghost prefix = t@.subrange(0, i as int);
        let ghost prefix1 = t@.subrange(0, i + 1);
        proof {
            assert(prefix1.drop_last() =~= prefix);
            assert(prefix1.last() == t@[i as int]);
            crate::strutil::lemma_digits_value_nonneg(prefix);
        }
        if !over {
            if d <= max && acc <= (max - d) / 10 {
                proof {
                    assert(acc * 10 + d <= max) by (nonlinear_arith)
                        requires
                            acc <= (max - d) / 10,
                            d <= max,
                    ;
                }
                acc = acc * 10 + d;
            } else {
                over = true;
                proof {
                    assert(acc * 10 + d > max) by (nonlinear_arith)
                        requires
                            d <= u64::MAX,
                            acc >= 0,
                            !(d <= max && acc <= (max - d) / 10),
                    ;
                }
            }
        } else {
            proof {
                crate::strutil::lemma_digits_value_nonneg(prefix);
                assert(digits_value(prefix1) == digits_value(prefix) * 10 + digit_val_of(
                    t@[i as int],
                ));
                assert(digits_value(prefix) * 10 >= digits_value(prefix)) by (nonlinear_arith)
                    requires
                        digits_value(prefix) >= 0,
                ;
            }
        }
        i += 1;
    }
    proof {
        assert(t@.subrange(0, n as int) =~= t@);
    }
    if over {
        None
    } else {
        Some(acc)
    }
}

/// The numeric value of one digit character (a shorthand used in proofs).
pub open spec fn digit_val_of(c: char) -> int {
    crate::strutil::digit_val(c)
}

/// The field-wise conditions under which a signal object decodes.
pub open spec fn signal_decodable(e: Seq<(String, JsonValue)>) -> bool {
    &&& field_bool(e, "enabled"@, false) is Some
    &&& field_string(e, "phoneNumber"@, Seq::empty()) is Some
    &&& field_string(e, "checkInSchedule"@, "daily"@) is Some
    &&& field_opt_string(e, "checkInTime"@) is Some
    &&& field_string_list(e, "notificationTypes"@) is Some
    &&& field_opt_string(e, "nextCheckIn"@) is Some
}

/// The decoded signal settings, field by field.
pub open spec fn signal_matches(c: SignalConfig, e: Seq<(String, JsonValue)>) -> bool {
    &&& Some(c.enabled) == field_bool(e, "enabled"@, false)
    &&& Some(c.phone_number@) == field_string(e, "phoneNumber"@, Seq::empty())
    &&& Some(c.check_in_schedule@) == field_string(e, "checkInSchedule"@, "daily"@)
    &&& Some(opt_view(c.check_in_time)) == field_opt_string(e, "checkInTime"@)
    &&& Some(views_of(c.notification_types@)) == field_string_list(e, "notificationTypes"@)
    &&& Some(opt_view(c.next_check_in)) == field_opt_string(e, "nextCheckIn"@)
}

/// Decode signal settings from a configuration object.
pub fn decode_signal(v: &JsonValue) -> (r: Result<SignalConfig, CommunicationError>)
    ensures
        *v matches JsonValue::Obj(entries) ==> {
            &&& r is Ok <==> signal_decodable(entries@)
            &&& r is Ok ==> signal_matches(r->Ok_0, entries@)
        },
        !(*v is Obj) ==> r is Err,
        r is Err ==> r->Err_0 is JsonError,
{
    if !matches!(v, JsonValue::Obj(_)) {
        return Err(CommunicationError::JsonError(String::from_str("expected an object")));
    }
    let mut c = SignalConfig::default();
    c.notification_types = Vec::new();
    match crate::json::get(v, "enabled") {
        None => {},
        Some(JsonValue::Bool(b)) => {
            c.enabled = *b;
        },
        Some(_) => {
            return Err(CommunicationError::JsonError(String::from_str("enabled")));
        },
    }
    match crate::json::get(v, "phoneNumber") {
        None => {},
        Some(JsonValue::Str(s)) => {
            c.phone_number = s.clone();
        },
        Some(_) => {
            return Err(CommunicationError::JsonError(String::from_str("phoneNumber")));
        },
    }
    match crate::json::get(v, "checkInSchedule") {
        None => {},
        Some(JsonValue::Str(s)) => {
            c.check_in_schedule = s.clone();
        },
        Some(_) => {
            return Err(CommunicationError::JsonError(String::from_str("checkInSchedule")));
        },
    }
    match crate::json::get(v, "checkInTime") {
        None => {},
        Some(JsonValue::Null) => {},
        Some(JsonValue::Str(s)) => {
            c.check_in_time = Some(s.clone());
        },
        Some(_) => {
            return Err(CommunicationError::JsonError(String::from_str("checkInTime")));
        },
    }
    match crate::json::get(v, "notificationTypes") {
        None => {},
        Some(JsonValue::Arr(items)) => {
            c.notification_types = decode_string_list(items)?;
        },
        Some(_) => {
            return Err(CommunicationError::JsonError(String::from_str("notificationTypes")));
        },
    }
    match crate::json::get(v, "nextCheckIn") {
        None => {},
        Some(JsonValue::Null) => {},
        Some(JsonValue::Str(s)) => {
            c.next_check_in = Some(s.clone());
        },
        Some(_) => {
            return Err(CommunicationError::JsonError(String::from_str("nextCheckIn")));
        },
    }
    proof {
        if c.notification_types@.len() == 0 {
            assert(views_of(c.notification_types@) =~= Seq::<Seq<char>>::empty());
        }
    }
    Ok(c)
}

/// The field-wise conditions under which a github object decodes.
pub open spec fn github_decodable(e: Seq<(String, JsonValue)>) -> bool {
    &&& field_bool(e, "enabled"@, false) is Some
    &&& field_opt_string(e, "token"@) is Some
    &&& field_string(e, "owner"@, Seq::empty()) is Some
    &&& field_string(e, "repo"@, Seq::empty()) is Some
    &&& field_bool(e, "watchIssues"@, false) is Some
    &&& field_bool(e, "watchPullRequests"@, false) is Some
    &&& field_bool(e, "watchCommits"@, false) is Some
    &&& field_uint(e, "pollIntervalMinutes"@, 5, u32::MAX as int) is Some
    &&& field_string_list(e, "repositories"@) is Some
    &&& field_string_list(e, "issueLabels"@) is Some
    &&& field_bool(e, "autoRespond"@, false) is Some
}

/// The decoded github settings, field by field.
pub open spec fn github_matches(c: GitHubConfig, e: Seq<(String, JsonValue)>) -> bool {
    &&& Some(c.enabled) == field_bool(e, "enabled"@, false)
    &&& Some(opt_view(c.token)) == field_opt_string(e, "token"@)
    &&& Some(c.owner@) == field_string(e, "owner"@, Seq::empty())
    &&& Some(c.repo@) == field_string(e, "repo"@, Seq::empty())
    &&& Some(c.watch_issues) == field_bool(e, "watchIssues"@, false)
    &&& Some(c.watch_pull_requests) == field_bool(e, "watchPullRequests"@, false)
    &&& Some(c.watch_commits) == field_bool(e, "watchCommits"@, false)
    &&& Some(c.poll_interval_minutes as int) == field_uint(
        e,
        "pollIntervalMinutes"@,
        5,
        u32::MAX as int,
    )
    &&& Some(views_of(c.repositories@)) == field_string_list(e, "repositories"@)
    &&& Some(views_of(c.issue_labels@)) == field_string_list(e, "issueLabels"@)
    &&& Some(c.auto_respond) == field_bool(e, "autoRespond"@, false)
}

/// Decode github settings from a configuration object.
#[verifier::rlimit(60)]
pub fn decode_github(v: &JsonValue) -> (r: Result<GitHubConfig, CommunicationError>)
    ensures
        *v matches JsonValue::Obj(entries) ==> {
            &&& r is Ok <==> github_decodable(entries@)
            &&& r is Ok ==> github_matches(r->Ok_0, entries@)
        },
        !(*v is Obj) ==> r is Err,
        r is Err ==> r->Err_0 is JsonError,
{
    if !matches!(v, JsonValue::Obj(_)) {
        return Err(CommunicationError::JsonError(String::from_str("expected an object")));
    }
    let mut c = GitHubConfig::default();
    match crate::json::get(v, "enabled") {
        None => {},
        Some(JsonValue::Bool(b)) => {
            c.enabled = *b;
        },
        Some(_) => {
            return Err(CommunicationError::JsonError(String::from_str("enabled")));
        },
    }
    match crate::json::get(v, "token") {
        None => {},
        Some(JsonValue::Null) => {},
        Some(JsonValue::Str(s)) => {
            c.token = Some(s.clone());
        },
        Some(_) => {
            return Err(CommunicationError::JsonError(String::from_str("token")));
        },
    }
    match crate::json::get(v, "owner") {
        None => {},
        Some(JsonValue::Str(s)) => {
            c.owner = s.clone();
        },
        Some(_) => {
            return Err(CommunicationError::JsonError(String::from_str("owner")));
        },
    }
    match crate::json::get(v, "repo") {
        None => {},
        Some(JsonValue::Str(s)) => {
            c.repo = s.clone();
        },
        Some(_) => {
            return Err(CommunicationError::JsonError(String::from_str("repo")));
        },
    }
    match crate::json::get(v, "watchIssues") {
        None => {},
        Some(JsonValue::Bool(b)) => {
            c.watch_issues = *b;
        },
        Some(_) => {
            return Err(CommunicationError::JsonError(String::from_str("watchIssues")));
        },
    }
    match crate::json::get(v, "watchPullRequests") {
        None => {},
        Some(JsonValue::Bool(b)) => {
            c.watch_pull_requests = *b;
        },
        Some(_) => {
            return Err(CommunicationError::JsonError(String::from_str("watchPullRequests")));
        },
    }
    match crate::json::get(v, "watchCommits") {
        None => {},
        Some(JsonValue::Bool(b)) => {
            c.watch_commits = *b;
        },
        Some(_) => {
            return Err(CommunicationError::JsonError(String::from_str("watchCommits")));
        },
    }
    match crate::json::get(v, "pollIntervalMinutes") {
        None => {},
        Some(JsonValue::Num(t)) => {
            match parse_uint(t.as_str(), 4294967295) {
                Some(x) => {
                    c.poll_interval_minutes = x as u32;
                },
                None => {
                    return Err(CommunicationError::JsonError(String::from_str(
                        "pollIntervalMinutes",
                    )));
                },
            }
        },
        Some(_) => {
            return Err(CommunicationError::JsonError(String::from_str("pollIntervalMinutes")));
        },
    }
    match crate::json::get(v, "repositories") {
        None => {},
        Some(JsonValue::Arr(items)) => {
            c.repositories = decode_string_list(items)?;
        },
        Some(_) => {
            return Err(CommunicationError::JsonError(String::from_str("repositories")));
        },
    }
    match crate::json::get(v, "issueLabels") {
        None => {},
        Some(JsonValue::Arr(items)) => {
            c.issue_labels = decode_string_list(items)?;
        },
        Some(_) => {
            return Err(CommunicationError::JsonError(String::from_str("issueLabels")));
        },
    }
    match crate::json::get(v, "autoRespond") {
        None => {},
        Some(JsonValue::Bool(b)) => {
            c.auto_respond = *b;
        },
        Some(_) => {
            return Err(CommunicationError::JsonError(String::from_str("autoRespond")));
        },
    }
    proof {
        if c.repositories@.len() == 0 {
            assert(views_of(c.repositories@) =~= Seq::<Seq<char>>::empty());
        }
        if c.issue_labels@.len() == 0 {
            assert(views_of(c.issue_labels@) =~= Seq::<Seq<char>>::empty());
        }
    }
    Ok(c)
}

/// The field-wise conditions under which an email object decodes.
pub open spec fn email_decodable(e: Seq<(String, JsonValue)>) -> bool {
    &&& field_bool(e, "enabled"@, false) is Some
    &&& field_string_list(e, "addresses"@) is Some
    &&& field_string(e, "digestFrequency"@, "weekly"@) is Some
}

/// The decoded email settings, field by field.
pub open spec fn email_matches(c: EmailConfig, e: Seq<(String, JsonValue)>) -> bool {
    &&& Some(c.enabled) == field_bool(e, "enabled"@, false)
    &&& Some(views_of(c.addresses@)) == field_string_list(e, "addresses"@)
    &&& Some(c.digest_frequency@) == field_string(e, "digestFrequency"@, "weekly"@)
}

/// Decode email settings from a configuration object.
pub fn decode_email(v: &JsonValue) -> (r: Result<EmailConfig, CommunicationError>)
    ensures
        *v matches JsonValue::Obj(entries) ==> {
            &&& r is Ok <==> email_decodable(entries@)
            &&& r is Ok ==> email_matches(r->Ok_0, entries@)
        },
        !(*v is Obj) ==> r is Err,
        r is Err ==> r->Err_0 is JsonError,
{
    if !matches!(v, JsonValue::Obj(_)) {
        return Err(CommunicationError::JsonError(String::from_str("expected an object")));
    }
    let mut c = EmailConfig::default();
    match crate::json::get(v, "enabled") {
        None => {},
        Some(JsonValue::Bool(b)) => {
            c.enabled = *b;
        },
        Some(_) => {
            return Err(CommunicationError::JsonError(String::from_str("enabled")));
        },
    }
    match crate::json::get(v, "addresses") {
        None => {},
        Some(JsonValue::Arr(items)) => {
            c.addresses = decode_string_list(items)?;
        },
        Some(_) => {
            return Err(CommunicationError::JsonError(String::from_str("addresses")));
        },
    }
    match crate::json::get(v, "digestFrequency") {
        None => {},
        Some(JsonValue::Str(s)) => {
            c.digest_frequency = s.clone();
        },
        Some(_) => {
            return Err(CommunicationError::JsonError(String::from_str("digestFrequency")));
        },
    }
    proof {
        if c.addresses@.len() == 0 {
            assert(views_of(c.addresses@) =~= Seq::<Seq<char>>::empty());
        }
    }
    Ok(c)
}

/// The field-wise conditions under which a file-watcher object decodes.
pub open spec fn file_watcher_decodable(e: Seq<(String, JsonValue)>) -> bool {
    &&& field_bool(e, "enabled"@, false) is Some
    &&& field_string_list(e, "paths"@) is Some
    &&& field_string_list(e, "patterns"@) is Some
    &&& field_string_list(e, "ignorePatterns"@) is Some
    &&& field_uint(e, "pollInterval"@, 1000, u64::MAX as int) is Some
}

/// The decoded file-watcher settings, field by field.
pub open spec fn file_watcher_matches(c: FileWatcherConfig, e: Seq<(String, JsonValue)>) -> bool {
    &&& Some(c.enabled) == field_bool(e, "enabled"@, false)
    &&& Some(views_of(c.paths@)) == field_string_list(e, "paths"@)
    &&& Some(views_of(c.patterns@)) == field_string_list(e, "patterns"@)
    &&& Some(views_of(c.ignore_patterns@)) == field_string_list(e, "ignorePatterns"@)
    &&& Some(c.poll_interval as int) == field_uint(e, "pollInterval"@, 1000, u64::MAX as int)
}

/// Decode file-watcher settings from a configuration object.
pub fn decode_file_watcher(v: &JsonValue) -> (r: Result<FileWatcherConfig, CommunicationError>)
    ensures
        *v matches JsonValue::Obj(entries) ==> {
            &&& r is Ok <==> file_watcher_decodable(entries@)
            &&& r is Ok ==> file_watcher_matches(r->Ok_0, entries@)
        },
        !(*v is Obj) ==> r is Err,
        r is Err ==> r->Err_0 is JsonError,
{
    if !matches!(v, JsonValue::Obj(_)) {
        return Err(CommunicationError::JsonError(String::from_str("expected an object")));
    }
    let mut c = FileWatcherConfig::default();
    match crate::json::get(v, "enabled") {
        None => {},
        Some(JsonValue::Bool(b)) => {
            c.enabled = *b;
        },
        Some(_) => {
            return Err(CommunicationError::JsonError(String::from_str("enabled")));
        },
    }
    match crate::json::get(v, "paths") {
        None => {},
        Some(JsonValue::Arr(items)) => {
            c.paths = decode_string_list(items)?;
        },
        Some(_) => {
            return Err(CommunicationError::JsonError(String::from_str("paths")));
        },
    }
    match crate::json::get(v, "patterns") {
        None => {},
        Some(JsonValue::Arr(items)) => {
            c.patterns = decode_string_list(items)?;
        },
        Some(_) => {
            return Err(CommunicationError::JsonError(String::from_str("patterns")));
        },
    }
    match crate::json::get(v, "ignorePatterns") {
        None => {},
        Some(JsonValue::Arr(items)) => {
            c.ignore_patterns = decode_string_list(items)?;
        },
        Some(_) => {
            return Err(CommunicationError::JsonError(String::from_str("ignorePatterns")));
        },
    }
    match crate::json::get(v, "pollInterval") {
        None => {},
        Some(JsonValue::Num(t)) => {
            match parse_uint(t.as_str(), 18446744073709551615) {
                Some(x) => {
                    c.poll_interval = x;
                },
                None => {
                    return Err(CommunicationError::JsonError(String::from_str("pollInterval")));
                },
            }
        },
        Some(_) => {
            return Err(CommunicationError::JsonError(String::from_str("pollInterval")));
        },
    }
    proof {
        if c.paths@.len() == 0 {
            assert(views_of(c.paths@) =~= Seq::<Seq<char>>::empty());
        }
        if c.patterns@.len() == 0 {
            assert(views_of(c.patterns@) =~= Seq::<Seq<char>>::empty());
        }
        if c.ignore_patterns@.len() == 0 {
            assert(views_of(c.ignore_patterns@) =~= Seq::<Seq<char>>::empty());
        }
    }
    Ok(c)
}


/// The keys of the known top-level configuration fields.
pub open spec fn known_config_key(k: Seq<char>) -> bool {
    ||| k == "workspaces"@
    ||| k == "slack"@
    ||| k == "signal"@
    ||| k == "github"@
    ||| k == "email"@
    ||| k == "file_watcher"@
}

/// The entries with unrecognized keys, newest-read first (last entry of
/// the document first).
pub open spec fn customs_of(e: Seq<(String, JsonValue)>) -> Seq<(String, JsonValue)>
    decreases e.len(),
{
    if e.len() == 0 {
        Seq::empty()
    } else if known_config_key(e.last().0@) {
        customs_of(e.drop_last())
    } else {
        seq![e.last()] + customs_of(e.drop_last())
    }
}

/// Whether one optional sub-record decodes: absent and null both count,
/// an object must decode field-wise, anything else does not.
pub open spec fn sub_slack_ok(e: Seq<(String, JsonValue)>) -> bool {
    match lookup(e, "slack"@) {
        None => true,
        Some(JsonValue::Null) => true,
        Some(JsonValue::Obj(es)) => slack_decodable(es@),
        Some(_) => false,
    }
}

pub open spec fn sub_signal_ok(e: Seq<(String, JsonValue)>) -> bool {
    match lookup(e, "signal"@) {
        None => true,
        Some(JsonValue::Null) => true,
        Some(JsonValue::Obj(es)) => signal_decodable(es@),
        Some(_) => false,
    }
}

pub open spec fn sub_github_ok(e: Seq<(String, JsonValue)>) -> bool {
    match lookup(e, "github"@) {
        None => true,
        Some(JsonValue::Null) => true,
        Some(JsonValue::Obj(es)) => github_decodable(es@),
        Some(_) => false,
    }
}

pub open spec fn sub_email_ok(e: Seq<(String, JsonValue)>) -> bool {
    match lookup(e, "email"@) {
        None => true,
        Some(JsonValue::Null) => true,
        Some(JsonValue::Obj(es)) => email_decodable(es@),
        Some(_) => false,
    }
}

pub open spec fn sub_file_watcher_ok(e: Seq<(String, JsonValue)>) -> bool {
    match lookup(e, "file_watcher"@) {
        None => true,
        Some(JsonValue::Null) => true,
        Some(JsonValue::Obj(es)) => file_watcher_decodable(es@),
        Some(_) => false,
    }
}

/// The conditions under which a whole plugin configuration decodes.
pub open spec fn plugin_config_decodable(e: Seq<(String, JsonValue)>) -> bool {
    &&& field_string_list(e, "workspaces"@) is Some
    &&& sub_slack_ok(e)
    &&& sub_signal_ok(e)
    &&& sub_github_ok(e)
    &&& sub_email_ok(e)
    &&& sub_file_watcher_ok(e)
}

/// The decoded plugin configuration, field by field.
pub open spec fn plugin_config_matches(c: PluginConfig, e: Seq<(String, JsonValue)>) -> bool {
    &&& Some(views_of(c.workspaces@)) == field_string_list(e, "workspaces"@)
    &&& match lookup(e, "slack"@) {
        None => c.slack is None,
        Some(JsonValue::Null) => c.slack is None,
        Some(JsonValue::Obj(es)) => c.slack matches Some(sc) && slack_matches(sc, es@),
        Some(_) => false,
    }
    &&& match lookup(e, "signal"@) {
        None => c.signal is None,
        Some(JsonValue::Null) => c.signal is None,
        Some(JsonValue::Obj(es)) => c.signal matches Some(sc) && signal_matches(sc, es@),
        Some(_) => false,
    }
    &&& match lookup(e, "github"@) {
        None => c.github is None,
        Some(JsonValue::Null) => c.github is None,
        Some(JsonValue::Obj(es)) => c.github matches Some(sc) && github_matches(sc, es@),
        Some(_) => false,
    }
    &&& match lookup(e, "email"@) {
        None => c.email is None,
        Some(JsonValue::Null) => c.email is None,
        Some(JsonValue::Obj(es)) => c.email matches Some(sc) && email_matches(sc, es@),
        Some(_) => false,
    }
    &&& match lookup(e, "file_watcher"@) {
        None => c.file_watcher is None,
        Some(JsonValue::Null) => c.file_watcher is None,
        Some(JsonValue::Obj(es)) => c.file_watcher matches Some(sc) && file_watcher_matches(
            sc,
            es@,
        ),
        Some(_) => false,
    }
    &&& c.custom@ == customs_of(e)
}

/// Decode a whole persisted plugin configuration. Unrecognized keys are
/// kept as custom entries; a known sub-record of the wrong shape is an
/// error.
#[verifier::loop_isolation(false)]
#[verifier::rlimit(60)]
pub fn decode_plugin_config(doc: JsonValue) -> (r: Result<PluginConfig, CommunicationError>)
    ensures
        doc matches JsonValue::Obj(entries) ==> {
            &&& r is Ok <==> plugin_config_decodable(entries@)
            &&& r is Ok ==> plugin_config_matches(r->Ok_0, entries@)
        },
        !(doc is Obj) ==> r is Err,
        r is Err ==> r->Err_0 is JsonError,
{
    if !matches!(&doc, JsonValue::Obj(_)) {
        return Err(CommunicationError::JsonError(String::from_str("expected an object")));
    }
    let mut c = PluginConfig::default();
    match crate::json::get(&doc, "workspaces") {
        None => {},
        Some(JsonValue::Arr(items)) => {
            c.workspaces = decode_string_list(items)?;
        },
        Some(_) => {
            return Err(CommunicationError::JsonError(String::from_str("workspaces")));
        },
    }
    match crate::json::get(&doc, "slack") {
        None => {},
        Some(JsonValue::Null) => {},
        Some(sub@JsonValue::Obj(_)) => {
            c.slack = Some(decode_slack(sub)?);
        },
        Some(_) => {
            return Err(CommunicationError::JsonError(String::from_str("slack")));
        },
    }
    match crate::json::get(&doc, "signal") {
        None => {},
        Some(JsonValue::Null) => {},
        Some(sub@JsonValue::Obj(_)) => {
            c.signal = Some(decode_signal(sub)?);
        },
        Some(_) => {
            return Err(CommunicationError::JsonError(String::from_str("signal")));
        },
    }
    match crate::json::get(&doc, "github") {
        None => {},
        Some(JsonValue::Null) => {},
        Some(sub@JsonValue::Obj(_)) => {
            c.github = Some(decode_github(sub)?);
        },
        Some(_) => {
            return Err(CommunicationError::JsonError(String::from_str("github")));
        },
    }
    match crate::json::get(&doc, "email") {
        None => {},
        Some(JsonValue::Null) => {},
        Some(sub@JsonValue::Obj(_)) => {
            c.email = Some(decode_email(sub)?);
        },
        Some(_) => {
            return Err(CommunicationError::JsonError(String::from_str("email")));
        },
    }
    match crate::json::get(&doc, "file_watcher") {
        None => {},
        Some(JsonValue::Null) => {},
        Some(sub@JsonValue::Obj(_)) => {
            c.file_watcher = Some(decode_file_watcher(sub)?);
        },
        Some(_) => {
            return Err(CommunicationError::JsonError(String::from_str("file_watcher")));
        },
    }
    // collect the custom entries, consuming the document back to front
    match doc {
        JsonValue::Obj(mut entries) => {
            let ghost orig = entries@;
            let mut custom: Vec<(String, JsonValue)> = Vec::new();
            proof {
                assert(orig.subrange(0, orig.len() as int) =~= orig);
                assert(custom@ + customs_of(orig) =~= customs_of(orig));
            }
            loop
                invariant
                    entries@ =~= orig.subrange(0, entries@.len() as int),
                    entries@.len() <= orig.len(),
                    customs_of(orig) =~= custom@ + customs_of(
                        orig.subrange(0, entries@.len() as int),
                    ),
                decreases entries@.len(),
            {
                let ghost before = entries@;
                match entries.pop() {
                    Some((k, v)) => {
                        let ghost pair = (k, v);
                        let keep = !(crate::strutil::str_eq(k.as_str(), "workspaces")
                            || crate::strutil::str_eq(k.as_str(), "slack")
                            || crate::strutil::str_eq(k.as_str(), "signal")
                            || crate::strutil::str_eq(k.as_str(), "github")
                            || crate::strutil::str_eq(k.as_str(), "email")
                            || crate::strutil::str_eq(k.as_str(), "file_watcher"));
                        proof {
                            assert(before.last() == pair);
                            assert(before.drop_last() =~= orig.subrange(0, before.len() - 1));
                            assert(customs_of(before) == if known_config_key(pair.0@) {
                                customs_of(before.drop_last())
                            } else {
                                seq![pair] + customs_of(before.drop_last())
                            });
                        }
                        if keep {
                            custom.push((k, v));
                        }
                    }
                    None => {
                        break;
                    }
                }
            }
            proof {
                assert(orig.subrange(0, 0) =~= Seq::<(String, JsonValue)>::empty());
                assert(customs_of(orig) =~= custom@);
            }
            c.custom = custom;
        }
        _ => {}
    }
    proof {
        if c.workspaces@.len() == 0 {
            assert(views_of(c.workspaces@) =~= Seq::<Seq<char>>::empty());
        }
    }
    Ok(c)
}

} // verus!


