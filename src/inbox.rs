use vstd::prelude::*;

verus! {

/// What the inbox holds after `record(batch)`: the batch alone, whatever came before.
pub open spec fn record_spec(held: Seq<String>, batch: Seq<String>) -> Seq<String> {
    batch
}

/// What `take` hands out and what the inbox holds afterwards: everything held,
/// and then nothing.
pub open spec fn take_spec(held: Seq<String>) -> (Seq<String>, Seq<String>) {
    (held, Seq::empty())
}

/// A single slot holding the paths of the most recent drop batch, in the order
/// in which the host reported them.
pub struct DropInbox {
    files: Vec<String>,
}

impl View for DropInbox {
    type V = Seq<String>;

    closed spec fn view(&self) -> Seq<String> {
        self.files@
    }
}

impl DropInbox {
    /// An empty inbox.
    pub fn new() -> (r: DropInbox)
        ensures
            r@ == Seq::<String>::empty(),
    {
        DropInbox { files: Vec::new() }
    }

    /// Replaces the contents with `paths`; the earlier batch is dropped, not queued.
    pub fn record(&mut self, paths: Vec<String>)
        ensures
            final(self)@ == record_spec(old(self)@, paths@),
    {
        self.files = paths;
    }

    /// Hands out the current contents and leaves the inbox empty, in one step.
    pub fn take(&mut self) -> (r: Vec<String>)
        ensures
            (r@, final(self)@) == take_spec(old(self)@),
    {
        let mut r: Vec<String> = Vec::new();
        std::mem::swap(&mut r, &mut self.files);
        r
    }

    /// The number of paths held.
    pub fn len(&self) -> (r: usize)
        ensures
            r == self@.len(),
    {
        self.files.len()
    }

    /// Whether the inbox holds no path.
    pub fn is_empty(&self) -> (r: bool)
        ensures
            r == (self@.len() == 0),
    {
        self.files.len() == 0
    }
}

impl Default for DropInbox {
    fn default() -> (r: DropInbox)
        ensures
            r@ == Seq::<String>::empty(),
    {
        DropInbox::new()
    }
}

} // verus!
