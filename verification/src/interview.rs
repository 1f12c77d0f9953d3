use vstd::prelude::*;
use crate::config::NavigatorConfig;
use crate::plugins_config::{GitHubConfig, SignalConfig, SlackConfig};
use crate::strutil::trimmed;

verus! {

/// The interactive setup of a navigator. The prompting happens outside;
/// every decision about what the answers mean is made here.
#[derive(Debug)]
pub struct Interview {
    pub navigator_path: String,
}

/// The comma-separated pieces of a channel list, each trimmed, empties
/// dropped.
pub open spec fn channel_list(s: Seq<char>) -> Seq<Seq<char>>
    decreases s.len(),
{
    match crate::pack::find_char_idx(s, 0, ',') {
        Some(i) => if 0 <= i < s.len() {
            let head = trimmed(s.subrange(0, i));
            let rest = channel_list(s.subrange(i + 1, s.len() as int));
            if head.len() > 0 {
                seq![head] + rest
            } else {
                rest
            }
        } else {
            Seq::empty()
        },
        None => {
            let head = trimmed(s);
            if head.len() > 0 {
                seq![head]
            } else {
                Seq::empty()
            }
        },
    }
}

impl Interview {
    /// A new interview for the navigator at the given path.
    pub fn new(path: &str) -> (r: Interview)
        ensures
            r.navigator_path@ == path@,
    {
        Interview { navigator_path: String::from_str(path) }
    }

    /// Take the description answer into the configuration: an empty
    /// answer leaves the description as it was.
    pub fn apply_description(config: &mut NavigatorConfig, description: &str)
        ensures
            description@.len() > 0 ==> (final(config).description matches Some(d) && d@
                == description@),
            description@.len() == 0 ==> final(config).description == old(config).description,
            final(config).name == old(config).name,
            final(config).confidence_threshold == old(config).confidence_threshold,
            final(config).plugins == old(config).plugins,
    {
        if description.unicode_len() > 0 {
            config.description = Some(String::from_str(description));
        }
    }

    /// The confidence floor (in thousandths) each menu choice stands
    /// for; any other choice clears the floor.
    pub fn confidence_for_choice(choice: usize) -> (r: Option<u32>)
        ensures
            choice == 0 ==> r == Some(800u32),
            choice == 1 ==> r == Some(500u32),
            choice == 2 ==> r == Some(200u32),
            choice >= 3 ==> r is None,
    {
        if choice == 0 {
            Some(800)
        } else if choice == 1 {
            Some(500)
        } else if choice == 2 {
            Some(200)
        } else {
            None
        }
    }

    /// Split a comma-separated channel answer into trimmed, non-empty
    /// channel names.
    #[verifier::loop_isolation(false)]
    pub fn parse_channel_list(s: &str) -> (r: Vec<String>)
        ensures
            crate::strutil::views_of(r@) == channel_list(s@),
    {
        let mut out: Vec<String> = Vec::new();
        let mut start: usize = 0;
        let n = s.unicode_len();
        proof {
            assert(s@.subrange(0, n as int) =~= s@);
            assert(crate::strutil::views_of(out@) + channel_list(s@.subrange(0, n as int))
                =~= channel_list(s@));
        }
        loop
            invariant
                start <= n,
                n == s@.len(),
                channel_list(s@) =~= crate::strutil::views_of(out@) + channel_list(
                    s@.subrange(start as int, n as int),
                ),
            decreases n - start,
        {
            let ghost remaining = s@.subrange(start as int, n as int);
            match crate::pack::find_char(s, start, ',') {
                Some(i) => {
                    proof {
                        crate::pack::lemma_find_char_bounds(s@, start as int, ',');
                        lemma_find_char_offset(s@, start as int, i as int, ',');
                        assert(remaining.subrange(0, i - start) =~= s@.subrange(
                            start as int,
                            i as int,
                        ));
                        assert(remaining.subrange(i - start + 1, remaining.len() as int)
                            =~= s@.subrange(i + 1, n as int));
                    }
                    let piece = crate::strutil::trim_ascii(s.substring_char(start, i));
                    if piece.as_str().unicode_len() > 0 {
                        let ghost before = out@;
                        out.push(piece);
                        proof {
                            crate::strutil::lemma_views_of_push(before, out@.last());
                            assert(out@ =~= before.push(out@.last()));
                        }
                    }
                    start = i + 1;
                },
                None => {
                    proof {
                        crate::pack::lemma_find_char_bounds(s@, start as int, ',');
                        lemma_find_char_offset_none(s@, start as int, ',');
                        assert(remaining =~= s@.subrange(start as int, n as int));
                    }
                    let piece = crate::strutil::trim_ascii(s.substring_char(start, n));
                    let ghost before = out@;
                    if piece.as_str().unicode_len() > 0 {
                        out.push(piece);
                        proof {
                            crate::strutil::lemma_views_of_push(before, out@.last());
                            assert(out@ =~= before.push(out@.last()));
                        }
                    }
                    proof {
                        assert(channel_list(s@) =~= crate::strutil::views_of(out@));
                    }
                    return out;
                },
            }
        }
    }

    /// The messaging settings an interview's answers stand for.
    pub fn slack_config_from_answers(workspace: &str, channels: Vec<String>) -> (r: SlackConfig)
        ensures
            r.enabled,
            r.workspace@ == workspace@,
            r.channels == channels,
            r.thread_notifications,
            r.summary_frequency is Daily,
            r.bot_user_id is None,
            r.token is None,
    {
        let mut c = SlackConfig::default();
        c.enabled = true;
        c.workspace = String::from_str(workspace);
        c.channels = channels;
        c
    }

    /// The issue-tracker settings an interview's answers stand for.
    pub fn github_config_from_answers(
        owner: &str,
        repo: &str,
        watch_issues: bool,
        watch_pull_requests: bool,
    ) -> (r: GitHubConfig)
        ensures
            r.enabled,
            r.owner@ == owner@,
            r.repo@ == repo@,
            r.watch_issues == watch_issues,
            r.watch_pull_requests == watch_pull_requests,
            r.token is None,
            !r.watch_commits,
            r.poll_interval_minutes == 5,
    {
        let mut c = GitHubConfig::default();
        c.enabled = true;
        c.owner = String::from_str(owner);
        c.repo = String::from_str(repo);
        c.watch_issues = watch_issues;
        c.watch_pull_requests = watch_pull_requests;
        c
    }

    /// The check-in schedule each menu choice stands for.
    pub fn schedule_for_choice(choice: usize) -> (r: String)
        ensures
            choice == 0 ==> r@ == "daily"@,
            choice == 1 ==> r@ == "weekly"@,
            choice >= 2 ==> r@ == "custom"@,
    {
        if choice == 0 {
            String::from_str("daily")
        } else if choice == 1 {
            String::from_str("weekly")
        } else {
            String::from_str("custom")
        }
    }

    /// The check-in settings an interview's answers stand for.
    pub fn signal_config_from_answers(phone_number: &str, schedule: String) -> (r: SignalConfig)
        ensures
            r.enabled,
            r.phone_number@ == phone_number@,
            r.check_in_schedule == schedule,
            r.notification_types@.len() == 2,
            r.notification_types@[0]@ == "urgent"@,
            r.notification_types@[1]@ == "daily-summary"@,
            r.check_in_time is None,
            r.next_check_in is None,
    {
        let mut c = SignalConfig::default();
        c.enabled = true;
        c.phone_number = String::from_str(phone_number);
        c.check_in_schedule = schedule;
        c
    }
}

proof fn lemma_find_char_offset(s: Seq<char>, start: int, i: int, c: char)
    requires
        0 <= start <= i < s.len(),
        crate::pack::find_char_idx(s, start, c) == Some(i),
    ensures
        crate::pack::find_char_idx(s.subrange(start, s.len() as int), 0, c) == Some(i - start),
{
    crate::pack::lemma_find_char_bounds(s, start, c);
    let sub = s.subrange(start, s.len() as int);
    assert forall|j: int| 0 <= j < i - start implies sub[j] != c by {
        assert(sub[j] == s[j + start]);
    }
    assert(sub[i - start] == c);
    crate::pack::lemma_find_char_fixed(sub, 0, c, i - start);
}

proof fn lemma_find_char_offset_none(s: Seq<char>, start: int, c: char)
    requires
        0 <= start <= s.len(),
        crate::pack::find_char_idx(s, start, c) is None,
    ensures
        crate::pack::find_char_idx(s.subrange(start, s.len() as int), 0, c) is None,
{
    crate::pack::lemma_find_char_bounds(s, start, c);
    let sub = s.subrange(start, s.len() as int);
    assert forall|j: int| 0 <= j < sub.len() implies sub[j] != c by {
        assert(sub[j] == s[j + start]);
    }
    crate::pack::lemma_find_char_fixed(sub, 0, c, sub.len() as int);
}

} // verus!
