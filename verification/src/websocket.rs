//! The live channel to clients: the messages it carries, the subscriptions of
//! a connection, and which alerts reach it.
use vstd::prelude::*;
use crate::models::alert::AlertMessage;
use crate::models::tower::TowerStatusResponse;
use crate::text::{uuid_text, uuid_string};

verus! {

/// A message on the live channel. Sensor data is carried as its JSON text.
#[allow(inconsistent_fields)]
#[derive(Debug, Clone)]
pub enum WebSocketMessage {
    Subscribe { channel: String, tower_id: Option<u128> },
    Unsubscribe { channel: String, tower_id: Option<u128> },
    Alert { alert: AlertMessage },
    TowerStatus { status: TowerStatusResponse },
    SensorData { tower_id: u128, data_type: String, data: String, timestamp: i64 },
    Heartbeat { timestamp: i64 },
    Error { message: String },
}

/// The key of a subscription: the channel, followed by `:` and the tower when
/// the subscription is to one tower.
pub open spec fn channel_key_text(channel: Seq<char>, tower_id: Option<u128>) -> Seq<char> {
    match tower_id {
        Some(t) => channel + ":"@ + uuid_text(t),
        None => channel,
    }
}

/// Makes the key of a subscription.
pub fn channel_key(channel: &str, tower_id: Option<u128>) -> (r: String)
    ensures
        r@ == channel_key_text(channel@, tower_id),
{
    let mut key = String::from_str(channel);
    match tower_id {
        Some(t) => {
            key.append(":");
            let id = uuid_string(t);
            key.append(id.as_str());
        }
        None => {}
    }
    key
}

/// The subscriptions of one connection, each key once.
#[derive(Debug)]
pub struct Subscriptions {
    keys: Vec<String>,
}

impl Subscriptions {
    /// The keys subscribed to, in the order they were first subscribed.
    pub closed spec fn keys(&self) -> Seq<Seq<char>> {
        self.keys@.map_values(|s: String| s@)
    }

    /// No key is held twice.
    #[verifier::type_invariant]
    spec fn keys_distinct(self) -> bool {
        self.keys().no_duplicates()
    }

    /// A connection with no subscriptions.
    pub fn new() -> (r: Self)
        ensures
            r.keys() == Seq::<Seq<char>>::empty(),
    {
        let s = Subscriptions { keys: Vec::new() };
        assert(s.keys() =~= Seq::<Seq<char>>::empty());
        s
    }

    /// Whether a key is subscribed to.
    pub fn contains(&self, key: &String) -> (r: bool)
        ensures
            r == self.keys().contains(key@),
    {
        let mut i: usize = 0;
        while i < self.keys.len()
            invariant
                i <= self.keys@.len(),
                forall|k: int| 0 <= k < i ==> self.keys@[k]@ != key@,
            decreases self.keys.len() - i,
        {
            if self.keys[i] == *key {
                assert(self.keys()[i as int] == key@);
                return true;
            }
            i = i + 1;
        }
        assert forall|k: int| 0 <= k < self.keys().len() implies self.keys()[k] != key@ by {
            assert(self.keys()[k] == self.keys@[k]@);
        }
        false
    }

    /// Subscribes to a channel, or to one tower's channel; subscribing again
    /// changes nothing.
    pub fn subscribe(&mut self, channel: &str, tower_id: Option<u128>)
        ensures
            final(self).keys() == if old(self).keys().contains(channel_key_text(channel@, tower_id)) {
                old(self).keys()
            } else {
                old(self).keys().push(channel_key_text(channel@, tower_id))
            },
    {
        proof { use_type_invariant(&*self); }
        let key = channel_key(channel, tower_id);
        if !self.contains(&key) {
            let ghost before = self.keys();
            let mut keys = self.copy_keys();
            keys.push(key);
            let ghost after = keys@.map_values(|s: String| s@);
            assert(after =~= before.push(channel_key_text(channel@, tower_id)));
            assert forall|a: int, b: int| 0 <= a < after.len() && 0 <= b < after.len() && a != b
                implies after[a] != after[b] by {
                if a < before.len() && b < before.len() {
                    assert(before[a] != before[b]);
                } else if a == before.len() {
                    assert(before[b] != channel_key_text(channel@, tower_id));
                } else {
                    assert(before[a] != channel_key_text(channel@, tower_id));
                }
            }
            self.keys = keys;
        }
    }

    /// A copy of the keys, in their order.
    fn copy_keys(&self) -> (r: Vec<String>)
        ensures
            r@.map_values(|s: String| s@) == self.keys(),
    {
        let mut copy: Vec<String> = Vec::new();
        let mut i: usize = 0;
        while i < self.keys.len()
            invariant
                i <= self.keys@.len(),
                copy@.map_values(|s: String| s@) == self.keys().subrange(0, i as int),
            decreases self.keys.len() - i,
        {
            let ghost before = copy@;
            let k = self.keys[i].clone();
            assert(k@ == self.keys()[i as int]);
            copy.push(k);
            assert(copy@.map_values(|s: String| s@) =~= before.map_values(|s: String| s@).push(self.keys()[i as int]));
            assert(self.keys().subrange(0, i + 1) =~= self.keys().subrange(0, i as int).push(self.keys()[i as int]));
            i = i + 1;
        }
        assert(self.keys().subrange(0, i as int) =~= self.keys());
        copy
    }

    /// Unsubscribes from a channel, or from one tower's channel.
    pub fn unsubscribe(&mut self, channel: &str, tower_id: Option<u128>)
        ensures
            final(self).keys() == old(self).keys().filter(|k: Seq<char>| k != channel_key_text(channel@, tower_id)),
    {
        proof { use_type_invariant(&*self); }
        let key = channel_key(channel, tower_id);
        let ghost pred = |k: Seq<char>| k != channel_key_text(channel@, tower_id);
        let ghost all = self.keys();
        let mut kept: Vec<String> = Vec::new();
        let mut i: usize = 0;
        assert(all.subrange(0, 0).filter(pred) =~= Seq::empty()) by {
            reveal(Seq::filter);
        }
        assert(kept@.map_values(|s: String| s@) =~= Seq::empty());
        while i < self.keys.len()
            invariant
                i <= self.keys@.len(),
                all == self.keys@.map_values(|s: String| s@),
                all.no_duplicates(),
                key@ == channel_key_text(channel@, tower_id),
                pred == (|k: Seq<char>| k != channel_key_text(channel@, tower_id)),
                kept@.map_values(|s: String| s@) == all.subrange(0, i as int).filter(pred),
            decreases self.keys.len() - i,
        {
            assert(all.subrange(0, i + 1) =~= all.subrange(0, i as int).push(all[i as int]));
            proof {
                all.subrange(0, i as int).lemma_filter_push(all[i as int], pred);
            }
            let ghost before = kept@;
            if self.keys[i] != key {
                kept.push(self.keys[i].clone());
                assert(kept@.map_values(|s: String| s@) =~= before.map_values(|s: String| s@).push(all[i as int]));
            }
            i = i + 1;
        }
        assert(all.subrange(0, i as int) =~= all);
        proof {
            lemma_filter_keeps_distinct(all, pred);
        }
        self.keys = kept;
    }

    /// Whether an alert about a tower reaches this connection: it does when
    /// the connection is subscribed to all alerts or to that tower's.
    pub fn wants_alert(&self, tower_id: u128) -> (r: bool)
        ensures
            r == (self.keys().contains("alerts"@) || self.keys().contains(channel_key_text("alerts"@, Some(tower_id)))),
    {
        let all = String::from_str("alerts");
        let one = channel_key("alerts", Some(tower_id));
        self.contains(&all) || self.contains(&one)
    }
}

/// Filtering keeps the elements distinct.
proof fn lemma_filter_keeps_distinct(s: Seq<Seq<char>>, pred: spec_fn(Seq<char>) -> bool)
    requires
        s.no_duplicates(),
    ensures
        s.filter(pred).no_duplicates(),
    decreases s.len(),
{
    reveal(Seq::filter);
    if s.len() > 0 {
        let rest = s.drop_last();
        assert(rest.no_duplicates()) by {
            assert forall|a: int, b: int| 0 <= a < rest.len() && 0 <= b < rest.len() && a != b
                implies rest[a] != rest[b] by {
                assert(s[a] != s[b]);
            }
        }
        lemma_filter_keeps_distinct(rest, pred);
        if pred(s.last()) {
            let f = rest.filter(pred);
            assert forall|a: int| 0 <= a < f.len() implies f[a] != s.last() by {
                assert(f.contains(f[a]));
                rest.lemma_filter_contains_rev(pred, f[a]);
                let j = choose|j: int| 0 <= j < rest.len() && rest[j] == f[a];
                assert(s[j] != s[s.len() - 1]);
            }
        }
    }
}

/// Subscriptions behave as a set of keys: a subscription is held after it is
/// made, making it twice is making it once, and it is gone after an
/// unsubscription, which leaves every other key as it was.
pub proof fn lemma_subscription_laws(keys: Seq<Seq<char>>, key: Seq<char>, other: Seq<char>)
    requires
        keys.no_duplicates(),
        other != key,
    ensures
        (if keys.contains(key) { keys } else { keys.push(key) }).contains(key),
        ({
            let once = if keys.contains(key) { keys } else { keys.push(key) };
            (if once.contains(key) { once } else { once.push(key) }) == once
        }),
        !keys.filter(|k: Seq<char>| k != key).contains(key),
        keys.filter(|k: Seq<char>| k != key).contains(other) == keys.contains(other),
{
    let pred = |k: Seq<char>| k != key;
    let once = if keys.contains(key) { keys } else { keys.push(key) };
    assert(once.contains(key)) by {
        if !keys.contains(key) {
            assert(keys.push(key)[keys.len() as int] == key);
        }
    }
    if keys.filter(pred).contains(key) {
        keys.lemma_filter_contains_rev(pred, key);
        let j = choose|j: int| 0 <= j < keys.filter(pred).len() && keys.filter(pred)[j] == key;
        keys.lemma_filter_pred(pred, j);
    }
    if keys.contains(other) {
        let j = choose|j: int| 0 <= j < keys.len() && keys[j] == other;
        keys.lemma_filter_contains(pred, j);
    }
    if keys.filter(pred).contains(other) {
        keys.lemma_filter_contains_rev(pred, other);
    }
}

/// Unsubscribing from a key that is not held leaves the list as it was.
proof fn lemma_filter_absent(keys: Seq<Seq<char>>, key: Seq<char>)
    requires
        !keys.contains(key),
    ensures
        keys.filter(|k: Seq<char>| k != key) == keys,
    decreases keys.len(),
{
    let pred = |k: Seq<char>| k != key;
    if keys.len() > 0 {
        let rest = keys.drop_last();
        assert(!rest.contains(key)) by {
            if rest.contains(key) {
                let j = choose|j: int| 0 <= j < rest.len() && rest[j] == key;
                assert(keys[j] == key);
            }
        }
        lemma_filter_absent(rest, key);
        assert(keys =~= rest.push(keys.last()));
        rest.lemma_filter_push(keys.last(), pred);
        assert(keys.last() != key) by {
            assert(keys[keys.len() - 1] == keys.last());
        }
    } else {
        assert(keys.filter(pred) =~= keys) by {
            reveal(Seq::filter);
        }
    }
}

/// Subscribing to a key not yet held and then unsubscribing from it gives
/// back the same list, in the same order; unsubscribing from a key that is
/// not held changes nothing.
pub proof fn lemma_subscribe_then_unsubscribe(keys: Seq<Seq<char>>, key: Seq<char>)
    requires
        !keys.contains(key),
    ensures
        keys.push(key).filter(|k: Seq<char>| k != key) == keys,
        keys.filter(|k: Seq<char>| k != key) == keys,
{
    let pred = |k: Seq<char>| k != key;
    lemma_filter_absent(keys, key);
    keys.lemma_filter_push(key, pred);
}

/// What a connection does with a message from its client.
#[derive(Debug, Clone)]
pub enum ClientAction {
    /// The subscriptions changed.
    Updated,
    /// A message a client does not send; it is logged and dropped.
    Unexpected,
}

/// Handles a message from a client: subscriptions and unsubscriptions change
/// the connection's keys; any other message is unexpected and changes nothing.
pub fn handle_client_message(subscriptions: &mut Subscriptions, message: WebSocketMessage) -> (r: ClientAction)
    ensures
        match message {
            WebSocketMessage::Subscribe { channel, tower_id } => {
                &&& r is Updated
                &&& final(subscriptions).keys() == if old(subscriptions).keys().contains(channel_key_text(channel@, tower_id)) {
                    old(subscriptions).keys()
                } else {
                    old(subscriptions).keys().push(channel_key_text(channel@, tower_id))
                }
            },
            WebSocketMessage::Unsubscribe { channel, tower_id } => {
                &&& r is Updated
                &&& final(subscriptions).keys() == old(subscriptions).keys().filter(
                    |k: Seq<char>| k != channel_key_text(channel@, tower_id))
            },
            _ => r is Unexpected && final(subscriptions).keys() == old(subscriptions).keys(),
        },
{
    match message {
        WebSocketMessage::Subscribe { channel, tower_id } => {
            subscriptions.subscribe(channel.as_str(), tower_id);
            ClientAction::Updated
        }
        WebSocketMessage::Unsubscribe { channel, tower_id } => {
            subscriptions.unsubscribe(channel.as_str(), tower_id);
            ClientAction::Updated
        }
        _ => ClientAction::Unexpected,
    }
}

/// The text of the error sent back for a message that could not be read.
pub fn invalid_message(reason: &str) -> (r: WebSocketMessage)
    ensures
        r matches WebSocketMessage::Error { message } && message@ == "Invalid message: "@ + reason@,
{
    let mut message = String::from_str("Invalid message: ");
    message.append(reason);
    WebSocketMessage::Error { message }
}

} // verus!
