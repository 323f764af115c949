//! Markers for the real clock and notifier, and a notifier that records
//! what it is asked to send.

use vstd::prelude::*;

verus! {

/// The system clock (wall-clock time of the machine).
#[derive(Debug, Clone, Copy, Default)]
pub struct SystemClock;

/// Desktop notifications through the operating system.
#[derive(Debug, Clone, Copy, Default)]
pub struct SystemNotifier;

/// Notifier that records every `(title, body)` it is asked to send. It is
/// not `Clone`: copies that share one record need shared mutable state,
/// which the caller supplies by wrapping the notifier.
#[derive(Debug)]
pub struct MockNotifier {
    notifications: Vec<(String, String)>,
}

/// Text of a recorded notification.
pub open spec fn text_pair(p: (String, String)) -> (Seq<char>, Seq<char>) {
    (p.0@, p.1@)
}

impl View for MockNotifier {
    type V = Seq<(Seq<char>, Seq<char>)>;

    /// The recorded notifications, oldest first.
    closed spec fn view(&self) -> Seq<(Seq<char>, Seq<char>)> {
        self.notifications@.map_values(|p: (String, String)| text_pair(p))
    }
}

impl Default for MockNotifier {
    /// A notifier that has recorded nothing.
    fn default() -> (r: Self)
        ensures
            r@ == Seq::<(Seq<char>, Seq<char>)>::empty(),
    {
        let r = MockNotifier { notifications: Vec::new() };
        assert(r@ =~= Seq::<(Seq<char>, Seq<char>)>::empty());
        r
    }
}

impl MockNotifier {
    /// A notifier that has recorded nothing.
    pub fn new() -> (r: Self)
        ensures
            r@ == Seq::<(Seq<char>, Seq<char>)>::empty(),
    {
        Self::default()
    }

    /// Records the notification `(title, body)`.
    pub fn notify(&mut self, title: &str, body: &str)
        ensures
            final(self)@ == old(self)@.push((title@, body@)),
    {
        self.notifications.push((title.to_owned(), body.to_owned()));
        assert(self@ =~= old(self)@.push((title@, body@)));
    }

    /// All notifications recorded so far, oldest first.
    pub fn get_notifications(&self) -> (r: Vec<(String, String)>)
        ensures
            r@.map_values(|p: (String, String)| text_pair(p)) == self@,
    {
        let mut out: Vec<(String, String)> = Vec::new();
        let mut i: usize = 0;
        while i < self.notifications.len()
            invariant
                0 <= i <= self.notifications.len(),
                out.len() == i,
                forall|j: int|
                    0 <= j < i ==> text_pair(#[trigger] out@[j]) == text_pair(
                        self.notifications@[j],
                    ),
            decreases self.notifications.len() - i,
        {
            let (title, body) = &self.notifications[i];
            out.push((title.clone(), body.clone()));
            i = i + 1;
        }
        assert(out@.map_values(|p: (String, String)| text_pair(p)) =~= self@);
        out
    }

    /// Number of notifications recorded so far.
    pub fn notification_count(&self) -> (r: usize)
        ensures
            r == self@.len(),
    {
        self.notifications.len()
    }

    /// Forgets all recorded notifications.
    pub fn clear(&mut self)
        ensures
            final(self)@ == Seq::<(Seq<char>, Seq<char>)>::empty(),
    {
        self.notifications.clear();
        assert(self@ =~= Seq::<(Seq<char>, Seq<char>)>::empty());
    }

    /// Whether any notification has been recorded.
    pub fn was_called(&self) -> (r: bool)
        ensures
            r == (self@.len() > 0),
    {
        !self.notifications.is_empty()
    }
}

} // verus!
