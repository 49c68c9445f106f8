//! Desktop notifications: making one (with a fresh id and the present
//! time), the `notify-send` command that shows it, where the stored ones
//! live, and their order. Running the command and touching the files is the
//! caller's part.
use vstd::prelude::*;

use crate::ids::{is_v4_uuid_text, new_uuid};
use crate::text::{chars_of, ends_with, has_suffix, join_path, owned, path_join, concat_str};

verus! {

/// How pressing a notification is.
#[derive(Debug, Clone, Copy, PartialEq, Eq, Structural)]
pub enum NotificationUrgency {
    Low,
    Normal,
    Critical,
}

impl Default for NotificationUrgency {
    fn default() -> (r: Self)
        ensures
            r == NotificationUrgency::Normal,
    {
        NotificationUrgency::Normal
    }
}

/// A desktop notification.
#[derive(Debug, Clone)]
pub struct Notification {
    pub id: String,
    pub title: String,
    pub body: String,
    pub icon: Option<String>,
    pub urgency: NotificationUrgency,
    pub timestamp: i64,
    pub app_name: Option<String>,
}

/// The notification service.
pub struct NotificationService;

/// The word `notify-send` takes for an urgency.
pub open spec fn urgency_word(u: NotificationUrgency) -> Seq<char> {
    match u {
        NotificationUrgency::Low => "low"@,
        NotificationUrgency::Normal => "normal"@,
        NotificationUrgency::Critical => "critical"@,
    }
}

/// The arguments of `notify-send` for `n`: `-u <urgency> -a <application>`,
/// then `-i <icon>` when there is an icon, then the title and the body.
pub open spec fn notify_args(n: Notification) -> Seq<Seq<char>> {
    let app = match n.app_name {
        Some(a) => a@,
        None => Seq::empty(),
    };
    let head = seq!["-u"@, urgency_word(n.urgency), "-a"@, app];
    let with_icon = match n.icon {
        Some(i) => head + seq!["-i"@, i@],
        None => head,
    };
    with_icon + seq![n.title@, n.body@]
}

/// Stored notifications from newest to oldest, those of the same second in
/// the order they came in (a stable sort).
pub open spec fn sorted_by_time(v: Seq<Notification>) -> Seq<Notification>
    decreases v.len(),
{
    if v.len() == 0 {
        v
    } else {
        let s = sorted_by_time(v.drop_last());
        s.insert(time_insertion_point(s, v.last().timestamp), v.last())
    }
}

/// Where a notification of time `t` goes in a list from newest to oldest:
/// after every notification at least as new.
pub open spec fn time_insertion_point(s: Seq<Notification>, t: i64) -> int
    decreases s.len(),
{
    if s.len() == 0 {
        0
    } else if s[0].timestamp >= t {
        1 + time_insertion_point(s.drop_first(), t)
    } else {
        0
    }
}

/// The directory of stored notifications under a local data directory:
/// `<data>/xarph/notifications`, `~/.local/share` standing in for a missing
/// one.
pub open spec fn notifications_dir_of(data_local: Option<String>) -> Seq<char> {
    let base = match data_local {
        Some(d) => d@,
        None => "~/.local/share"@,
    };
    path_join(path_join(base, "xarph"@), "notifications"@)
}

impl NotificationService {
    /// A new notification: a fresh random id, the present time (seconds
    /// since the epoch), and `Xarph` as the application. The time is the
    /// clock's: nothing is stated of it.
    pub fn notification(title: &str, body: &str, icon: Option<&str>, urgency: NotificationUrgency) -> (r:
        Notification)
        ensures
            is_v4_uuid_text(r.id@),
            r.title@ == title@,
            r.body@ == body@,
            match icon {
                Some(i) => r.icon matches Some(x) && x@ == i@,
                None => r.icon is None,
            },
            r.urgency == urgency,
            r.app_name matches Some(a) && a@ == "Xarph"@,
    {
        let secs = crate::clock::now_unix_secs();
        Notification {
            id: new_uuid(),
            title: owned(title),
            body: owned(body),
            icon: match icon {
                Some(i) => Some(owned(i)),
                None => None,
            },
            urgency,
            timestamp: secs as i64,
            app_name: Some(owned("Xarph")),
        }
    }

    /// The arguments of the `notify-send` command that shows `n`.
    pub fn notify_send_args(n: &Notification) -> (r: Vec<String>)
        ensures
            r@.map_values(|s: String| s@) == notify_args(*n),
    {
        let mut r: Vec<String> = Vec::new();
        r.push(owned("-u"));
        r.push(
            owned(
                match n.urgency {
                    NotificationUrgency::Low => "low",
                    NotificationUrgency::Normal => "normal",
                    NotificationUrgency::Critical => "critical",
                },
            ),
        );
        r.push(owned("-a"));
        r.push(
            match &n.app_name {
                Some(a) => a.clone(),
                None => String::new(),
            },
        );
        match &n.icon {
            Some(i) => {
                r.push(owned("-i"));
                r.push(i.clone());
            },
            None => {},
        }
        r.push(n.title.clone());
        r.push(n.body.clone());
        proof {
            assert(r@.map_values(|s: String| s@) =~= notify_args(*n));
        }
        r
    }

    /// The directory of stored notifications under the local data directory
    /// `data_local`: `<data_local>/xarph/notifications`, `~/.local/share`
    /// standing in for a missing directory.
    pub fn notifications_dir_in(data_local: Option<String>) -> (r: String)
        ensures
            r@ == notifications_dir_of(data_local),
    {
        let base = match &data_local {
            Some(x) => x.clone(),
            None => owned("~/.local/share"),
        };
        let a = join_path(base.as_str(), "xarph");
        join_path(a.as_str(), "notifications")
    }

    /// The directory of stored notifications, under the user's local data
    /// directory as the environment gives it.
    pub fn notifications_dir() -> (r: String)
        ensures
            exists|d: Option<String>| r@ == notifications_dir_of(d),
    {
        Self::notifications_dir_in(crate::locations::data_local_dir())
    }

    /// The file of the stored notification `id` in `dir`: `<dir>/<id>.json`.
    pub fn notification_file(dir: &str, id: &str) -> (r: String)
        ensures
            r@ == path_join(dir@, id@ + ".json"@),
    {
        let name = concat_str(id, ".json");
        join_path(dir, name.as_str())
    }

    /// Whether a directory entry holds a stored notification: its name ends
    /// with `.json`.
    pub fn is_notification_file(name: &str) -> (r: bool)
        ensures
            r == has_suffix(name@, ".json"@),
    {
        let n = chars_of(name);
        let s = chars_of(".json");
        ends_with(&n, &s)
    }

    /// Stored notifications from newest to oldest.
    pub fn sort_by_time(v: Vec<Notification>) -> (r: Vec<Notification>)
        ensures
            r@ == sorted_by_time(v@),
    {
        let mut r: Vec<Notification> = Vec::new();
        let mut src = v;
        let ghost orig = src@;
        let n = src.len();
        let mut k: usize = 0;
        proof {
            assert(src@ =~= orig.skip(0));
            assert(orig.take(0) =~= Seq::<Notification>::empty());
        }
        while k < n
            invariant
                k <= n,
                n == orig.len(),
                src@ == orig.skip(k as int),
                r@ == sorted_by_time(orig.take(k as int)),
            decreases n - k,
        {
            proof {
                assert(src@.len() == n - k);
            }
            let x = src.remove(0);
            proof {
                assert(x == orig[k as int]);
                assert(src@ =~= orig.skip(k + 1));
                assert(orig.take(k + 1).drop_last() =~= orig.take(k as int));
                assert(orig.take(k + 1).last() == x);
            }
            let mut p: usize = 0;
            proof {
                assert(r@.skip(0) =~= r@);
            }
            while p < r.len() && r[p].timestamp >= x.timestamp
                invariant
                    p <= r@.len(),
                    time_insertion_point(r@, x.timestamp) == p + time_insertion_point(r@.skip(p as int), x.timestamp),
                decreases r.len() - p,
            {
                proof {
                    assert(r@.skip(p as int).drop_first() =~= r@.skip(p + 1));
                    assert(r@.skip(p as int)[0] == r@[p as int]);
                }
                p = p + 1;
            }
            proof {
                if p < r@.len() {
                    assert(r@.skip(p as int)[0] == r@[p as int]);
                }
            }
            r.insert(p, x);
            k = k + 1;
        }
        proof {
            assert(orig.take(n as int) =~= orig);
        }
        r
    }
}

proof fn lemma_time_insertion_point(s: Seq<Notification>, t: i64)
    ensures
        0 <= time_insertion_point(s, t) <= s.len(),
        forall|k: int| 0 <= k < time_insertion_point(s, t) ==> (#[trigger] s[k]).timestamp >= t,
        time_insertion_point(s, t) < s.len() ==> s[time_insertion_point(s, t)].timestamp < t,
    decreases s.len(),
{
    if s.len() > 0 && s[0].timestamp >= t {
        lemma_time_insertion_point(s.drop_first(), t);
        assert forall|k: int| 0 <= k < time_insertion_point(s, t) implies (#[trigger] s[k]).timestamp >= t by {
            if k > 0 {
                assert(s[k] == s.drop_first()[k - 1]);
            }
        }
    }
}

/// The stored notifications come out newest first, each notification as
/// often as it was stored.
pub proof fn law_sorted_by_time(v: Seq<Notification>)
    ensures
        sorted_by_time(v).len() == v.len(),
        sorted_by_time(v).to_multiset() == v.to_multiset(),
        forall|i: int, j: int|
            0 <= i < j < v.len() ==> (#[trigger] sorted_by_time(v)[i]).timestamp >= (
            #[trigger] sorted_by_time(v)[j]).timestamp,
    decreases v.len(),
{
    if v.len() > 0 {
        let t = v.drop_last();
        let x = v.last();
        law_sorted_by_time(t);
        let s = sorted_by_time(t);
        let p = time_insertion_point(s, x.timestamp);
        lemma_time_insertion_point(s, x.timestamp);
        let r = s.insert(p, x);
        assert(r == sorted_by_time(v));
        vstd::seq_lib::to_multiset_insert(s, p, x);
        vstd::seq_lib::to_multiset_build(t, x);
        assert(t.push(x) =~= v);
        assert forall|i: int, j: int| 0 <= i < j < v.len() implies (#[trigger] r[i]).timestamp >= (
            #[trigger] r[j]).timestamp by {
            if j < p {
                assert(r[i] == s[i] && r[j] == s[j]);
            } else if j == p {
                assert(r[i] == s[i]);
            } else if i == p {
                assert(r[j] == s[j - 1]);
                if j - 1 > p {
                    assert(s[p].timestamp >= s[j - 1].timestamp);
                }
            } else if i < p {
                assert(r[i] == s[i] && r[j] == s[j - 1]);
            } else {
                assert(r[i] == s[i - 1] && r[j] == s[j - 1]);
            }
        }
    }
}

} // verus!
