use vstd::prelude::*;

verus! {

/// Whether `message` counts as already reported at time `now` (seconds):
/// it has an entry, and no more than `max_age` seconds have passed since it.
/// A stored time later than `now` (a clock that went back) counts as recent.
pub open spec fn duplicate_at(
    entries: Map<Seq<char>, u64>,
    max_age: u64,
    message: Seq<char>,
    now: u64,
) -> bool {
    entries.contains_key(message) && now as int - entries[message] as int <= max_age as int
}

/// Remembers, for each error message, the time in seconds at which it was
/// last delivered, so that repeats within `max_age` seconds are suppressed.
pub struct ErrorTracker {
    error_tracker: Vec<(String, u64)>,
    max_age: u64,
    entries: Ghost<Map<Seq<char>, u64>>,
}

/// Relies on std's `SystemTime::elapsed`, taken from `UNIX_EPOCH`: the whole
/// seconds since the epoch, or `None` for a clock set before it.
#[verifier::external_body]
fn seconds_since_epoch() -> (r: Option<u64>) {
    match std::time::UNIX_EPOCH.elapsed() {
        Ok(d) => Some(d.as_secs()),
        Err(_) => None,
    }
}

impl ErrorTracker {
    /// The last delivery time of each message that has one.
    pub closed spec fn entries(&self) -> Map<Seq<char>, u64> {
        self.entries@
    }

    /// The age in seconds up to which a repeat is suppressed.
    pub closed spec fn max_age(&self) -> u64 {
        self.max_age
    }

    /// The list holds each message once, and holds exactly the map's entries.
    pub closed spec fn wf(&self) -> bool {
        &&& forall|i: int, j: int|
            0 <= i < j < self.error_tracker@.len() ==> self.error_tracker@[i].0@
                != self.error_tracker@[j].0@
        &&& forall|i: int|
            0 <= i < self.error_tracker@.len() ==> self.entries@.contains_key(
                #[trigger] self.error_tracker@[i].0@,
            ) && self.entries@[self.error_tracker@[i].0@] == self.error_tracker@[i].1
        &&& forall|k: Seq<char>|
            #[trigger] self.entries@.contains_key(k) ==> exists|i: int|
                0 <= i < self.error_tracker@.len() && #[trigger] self.error_tracker@[i].0@ == k
    }

    /// Whether `message` counts as already reported at time `now`.
    pub open spec fn is_duplicate_spec(&self, message: Seq<char>, now: u64) -> bool {
        duplicate_at(self.entries(), self.max_age(), message, now)
    }

    /// An empty tracker that suppresses repeats for `max_age` seconds.
    pub fn new(max_age: u64) -> (r: Self)
        ensures
            r.wf(),
            r.entries() == Map::<Seq<char>, u64>::empty(),
            r.max_age() == max_age,
    {
        ErrorTracker { error_tracker: Vec::new(), max_age, entries: Ghost(Map::empty()) }
    }

    /// Changes the suppression age to `max_age` seconds; entries are kept.
    pub fn set_max_age(&mut self, max_age: u64)
        requires
            old(self).wf(),
        ensures
            final(self).wf(),
            final(self).max_age() == max_age,
            final(self).entries() == old(self).entries(),
    {
        self.max_age = max_age;
        assert forall|k: Seq<char>| #[trigger] self.entries@.contains_key(k) implies exists|j: int|
            0 <= j < self.error_tracker@.len() && #[trigger] self.error_tracker@[j].0@ == k by {
            assert(old(self).entries@.contains_key(k));
            let j = choose|j: int|
                0 <= j < old(self).error_tracker@.len() && #[trigger] old(
                    self,
                ).error_tracker@[j].0@ == k;
            assert(self.error_tracker@[j].0@ == k);
        }
    }

    /// The position of `message` in the list, if it has an entry.
    fn find(&self, message: &String) -> (r: Option<usize>)
        requires
            self.wf(),
        ensures
            r matches Some(i) ==> i < self.error_tracker@.len() && self.error_tracker@[i as int].0@
                == message@,
            r is None ==> !self.entries().contains_key(message@),
    {
        let mut i: usize = 0;
        while i < self.error_tracker.len()
            invariant
                self.wf(),
                i <= self.error_tracker@.len(),
                forall|j: int| 0 <= j < i ==> self.error_tracker@[j].0@ != message@,
            decreases self.error_tracker@.len() - i,
        {
            if self.error_tracker[i].0 == *message {
                return Some(i);
            }
            i = i + 1;
        }
        None
    }

    /// Whether `message` counts as already reported at time `now` (seconds).
    pub fn is_duplicate_at(&self, message: &str, now: u64) -> (r: bool)
        requires
            self.wf(),
        ensures
            r == self.is_duplicate_spec(message@, now),
    {
        let key = message.to_string();
        match self.find(&key) {
            Some(i) => {
                let timestamp = self.error_tracker[i].1;
                now <= timestamp || now - timestamp <= self.max_age
            },
            None => false,
        }
    }

    /// Records that `message` was delivered at time `now` (seconds),
    /// replacing any earlier time.
    pub fn record_at(&mut self, message: &str, now: u64)
        requires
            old(self).wf(),
        ensures
            final(self).wf(),
            final(self).max_age() == old(self).max_age(),
            final(self).entries() == old(self).entries().insert(message@, now),
    {
        let key = message.to_string();
        let ghost before = self.error_tracker@;
        let ghost mut at: int = 0;
        match self.find(&key) {
            Some(i) => {
                self.error_tracker.set(i, (key, now));
                proof {
                    at = i as int;
                }
            },
            None => {
                self.error_tracker.push((key, now));
                proof {
                    at = before.len() as int;
                }
            },
        }
        assert(self.error_tracker@[at].0@ == message@);
        self.entries = Ghost(self.entries@.insert(message@, now));
        assert forall|k: Seq<char>| #[trigger] self.entries@.contains_key(k) implies exists|j: int|
            0 <= j < self.error_tracker@.len() && #[trigger] self.error_tracker@[j].0@ == k by {
            if k == message@ {
                assert(self.error_tracker@[at].0@ == k);
            } else {
                let j = choose|j: int| 0 <= j < before.len() && #[trigger] before[j].0@ == k;
                assert(self.error_tracker@[j].0@ == k);
            }
        }
    }

    /// The current time in whole seconds since the Unix epoch; 0 when the
    /// clock reads earlier than the epoch.
    pub fn current_timestamp() -> u64 {
        match seconds_since_epoch() {
            Some(s) => s,
            None => 0,
        }
    }

    /// Whether `message` counts as already reported now. The tracker is left
    /// as it was; the answer is that of `is_duplicate_at` at some time.
    pub fn duplicate_check(&mut self, message: &str) -> (r: bool)
        requires
            old(self).wf(),
        ensures
            *final(self) == *old(self),
            exists|now: u64| r == old(self).is_duplicate_spec(message@, now),
    {
        let now = Self::current_timestamp();
        self.is_duplicate_at(message, now)
    }

    /// Records that `message` was delivered now.
    pub fn add_timestamp(&mut self, message: &str)
        requires
            old(self).wf(),
        ensures
            final(self).wf(),
            final(self).max_age() == old(self).max_age(),
            exists|now: u64| final(self).entries() == old(self).entries().insert(message@, now),
    {
        let now = Self::current_timestamp();
        self.record_at(message, now);
    }
}

/// A message delivered at `t1` is a duplicate at any later `t2` within
/// `max_age` seconds of it.
pub proof fn lemma_recent_report_is_duplicate(
    entries: Map<Seq<char>, u64>,
    max_age: u64,
    message: Seq<char>,
    t1: u64,
    t2: u64,
)
    requires
        t1 < t2,
        t2 - t1 <= max_age,
    ensures
        duplicate_at(entries.insert(message, t1), max_age, message, t2),
{
}

/// A message delivered at `t1` is no duplicate at a `t2` more than `max_age`
/// seconds after it.
pub proof fn lemma_old_report_expires(
    entries: Map<Seq<char>, u64>,
    max_age: u64,
    message: Seq<char>,
    t1: u64,
    t2: u64,
)
    requires
        t2 - t1 > max_age,
    ensures
        !duplicate_at(entries.insert(message, t1), max_age, message, t2),
{
}

/// Recording one message leaves the answer for every other message as it was.
pub proof fn lemma_messages_independent(
    entries: Map<Seq<char>, u64>,
    max_age: u64,
    recorded: Seq<char>,
    t: u64,
    other: Seq<char>,
    now: u64,
)
    requires
        recorded != other,
    ensures
        duplicate_at(entries.insert(recorded, t), max_age, other, now) == duplicate_at(
            entries,
            max_age,
            other,
            now,
        ),
{
}

} // verus!
