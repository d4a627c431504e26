use vstd::prelude::*;

use crate::text::find_char;

verus! {

/// The key that a keyspace notification channel is about: the channel name after its
/// first `:`; `None` where the name has no `:`.
pub open spec fn keyspace_key_of(channel: Seq<char>) -> Option<Seq<char>> {
    if exists|i: int| 0 <= i < channel.len() && channel[i] == ':' {
        let sep = choose|i: int|
            0 <= i < channel.len() && channel[i] == ':' && forall|j: int|
                0 <= j < i ==> channel[j] != ':';
        Some(channel.subrange(sep + 1, channel.len() as int))
    } else {
        None
    }
}

/// The key that a keyspace notification channel is about (see `keyspace_key_of`).
pub fn keyspace_key(channel: &str) -> (res: Option<String>)
    ensures
        match res {
            Some(k) => keyspace_key_of(channel@) == Some(k@),
            None => keyspace_key_of(channel@) is None,
        },
{
    match find_char(channel, ':') {
        None => None,
        Some(sep) => {
            let n = channel.unicode_len();
            let ghost c = channel@;
            proof {
                let chosen = choose|i: int|
                    0 <= i < c.len() && c[i] == ':' && forall|j: int| 0 <= j < i ==> c[j] != ':';
                assert(0 <= sep < c.len() && c[sep as int] == ':' && forall|j: int|
                    0 <= j < sep ==> c[j] != ':');
                assert(chosen == sep);
            }
            let key = channel.substring_char(sep + 1, n);
            Some(String::from_str(key))
        },
    }
}

/// What the block listener does with one outcome of waiting for a notification.
#[derive(Clone, Debug, PartialEq, Eq)]
pub enum ListenerAction {
    /// Waiting failed: report the error and wait again.
    ReportReceiveError,
    /// Read the block under `key` and send it to the notification bot.
    FetchAndNotify(String),
    /// Read the block under `key`; the bot is not connected, so report that instead of
    /// sending it.
    FetchWithoutNotifier(String),
}

/// The listener's decision: for a notification on `channel` (`None` where waiting
/// failed), with the bot connected or not after the reconnection attempt. `None`
/// where the channel names no key.
pub fn listener_action(channel: Option<&str>, notifier_connected: bool) -> (res: Option<
    ListenerAction,
>)
    ensures
        channel is None ==> res == Some(ListenerAction::ReportReceiveError),
        channel matches Some(c) ==> match keyspace_key_of(c@) {
            None => res is None,
            Some(k) => res matches Some(a) && match a {
                ListenerAction::FetchAndNotify(key) => notifier_connected && key@ == k,
                ListenerAction::FetchWithoutNotifier(key) => !notifier_connected && key@ == k,
                ListenerAction::ReportReceiveError => false,
            },
        },
{
    match channel {
        None => Some(ListenerAction::ReportReceiveError),
        Some(c) => match keyspace_key(c) {
            None => None,
            Some(key) => {
                if notifier_connected {
                    Some(ListenerAction::FetchAndNotify(key))
                } else {
                    Some(ListenerAction::FetchWithoutNotifier(key))
                }
            },
        },
    }
}

/// A keyspace channel names its key after the first `:`: where the part before the
/// separator holds no `:`, the key comes back whole, `:`s and all.
pub proof fn lemma_keyspace_key_roundtrip(prefix: Seq<char>, key: Seq<char>)
    requires
        forall|i: int| 0 <= i < prefix.len() ==> prefix[i] != ':',
    ensures
        keyspace_key_of(prefix + seq![':'] + key) == Some(key),
{
    let c = prefix + seq![':'] + key;
    let p = prefix.len() as int;
    assert(c[p] == ':');
    let sep = choose|i: int|
        0 <= i < c.len() && c[i] == ':' && forall|j: int| 0 <= j < i ==> c[j] != ':';
    assert(0 <= sep < c.len() && c[sep] == ':' && forall|j: int| 0 <= j < sep ==> c[j] != ':');
    if sep < p {
        assert(c[sep] == prefix[sep]);
    }
    assert(sep == p);
    assert(c.subrange(p + 1, c.len() as int) =~= key);
}

} // verus!
