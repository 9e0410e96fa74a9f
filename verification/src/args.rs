//! The arguments that the process was started with.
//!
//! The store is filled once at startup from the raw argument vector, read any
//! number of times, and emptied at shutdown. It is a plain value: whoever
//! owns it decides where it lives, and the borrow rules see to it that it is
//! not changed while it is read.

use vstd::prelude::*;
use crate::cstring::{c_str, lemma_strlen, strlen};

verus! {

/// The byte strings that a vector of byte vectors holds.
pub open spec fn rows(v: Seq<Vec<u8>>) -> Seq<Seq<u8>> {
    Seq::new(v.len(), |i: int| v[i]@)
}

/// The number of arguments that are taken from a raw vector of `len` entries
/// that is said to hold `argc`: none for a negative count, and never more
/// than there are.
pub open spec fn captured_count(argc: isize, len: nat) -> nat {
    if argc <= 0 {
        0
    } else if argc >= len {
        len
    } else {
        argc as nat
    }
}

/// The arguments captured from the raw vector `argv`, of which `argc` are
/// said to count: of each entry the bytes before its first NUL.
pub open spec fn captured(argc: isize, argv: Seq<Seq<u8>>) -> Seq<Seq<u8>> {
    Seq::new(captured_count(argc, argv.len()), |i: int| c_str(argv[i]))
}

/// What a store gives when it is read: its arguments, or none if it holds
/// none.
pub open spec fn snapshot(store: Option<Seq<Seq<u8>>>) -> Seq<Seq<u8>> {
    match store {
        Some(args) => args,
        None => Seq::empty(),
    }
}

/// What is done to a store.
pub enum ArgEvent {
    /// The store is filled from a raw argument vector.
    Init { argc: isize, argv: Seq<Seq<u8>> },
    /// The store is emptied.
    Cleanup,
}

/// The store after `event`.
pub open spec fn after(store: Option<Seq<Seq<u8>>>, event: ArgEvent) -> Option<Seq<Seq<u8>>> {
    match event {
        ArgEvent::Init { argc, argv } => Some(captured(argc, argv)),
        ArgEvent::Cleanup => None,
    }
}

/// The store after the events `events`, one after the other.
pub open spec fn after_all(store: Option<Seq<Seq<u8>>>, events: Seq<ArgEvent>) -> Option<
    Seq<Seq<u8>>,
>
    decreases events.len(),
{
    if events.len() == 0 {
        store
    } else {
        after(after_all(store, events.drop_last()), events.last())
    }
}

/// A store that was just filled gives the arguments it was filled with and
/// nothing else, whatever was done to it before; one that was just emptied
/// gives none.
pub proof fn lemma_store_reflects_last_event(
    store: Option<Seq<Seq<u8>>>,
    events: Seq<ArgEvent>,
    last: ArgEvent,
)
    ensures
        snapshot(after_all(store, events.push(last))) == match last {
            ArgEvent::Init { argc, argv } => captured(argc, argv),
            ArgEvent::Cleanup => Seq::<Seq<u8>>::empty(),
        },
{
}

/// The arguments of the process.
pub struct ArgStore {
    args: Option<Vec<Vec<u8>>>,
}

impl View for ArgStore {
    type V = Option<Seq<Seq<u8>>>;

    closed spec fn view(&self) -> Option<Seq<Seq<u8>>> {
        match self.args {
            Some(v) => Some(rows(v@)),
            None => None,
        }
    }
}

impl ArgStore {
    /// A store that holds nothing yet.
    pub fn new() -> (store: ArgStore)
        ensures
            store@ is None,
    {
        ArgStore { args: None }
    }
}

/// A copy of `v`.
fn copy_rows(v: &Vec<Vec<u8>>) -> (copy: Vec<Vec<u8>>)
    ensures
        rows(copy@) == rows(v@),
{
    let mut copy: Vec<Vec<u8>> = Vec::new();
    let mut i: usize = 0;
    while i < v.len()
        invariant
            i <= v.len(),
            copy@.len() == i,
            forall|j: int| 0 <= j < i ==> copy@[j]@ == v@[j]@,
        decreases v.len() - i,
    {
        copy.push(vstd::slice::slice_to_vec(v[i].as_slice()));
        i += 1;
    }
    copy
}

/// Fills the store from the raw argument vector: `argv` holds the memory of
/// each argument, of which the bytes before the first NUL are the argument,
/// and `argc` says how many entries count.
pub fn init(store: &mut ArgStore, argc: isize, argv: &Vec<Vec<u8>>)
    ensures
        final(store)@ == after(old(store)@, ArgEvent::Init { argc, argv: rows(argv@) }),
{
    let count: usize = if argc <= 0 {
        0
    } else if argc as usize >= argv.len() {
        argv.len()
    } else {
        argc as usize
    };
    let mut args: Vec<Vec<u8>> = Vec::new();
    let mut i: usize = 0;
    while i < count
        invariant
            i <= count <= argv.len(),
            args@.len() == i,
            forall|j: int| 0 <= j < i ==> args@[j]@ == c_str(argv@[j]@),
        decreases count - i,
    {
        let raw = argv[i].as_slice();
        let n = strlen(raw);
        proof {
            lemma_strlen(raw@);
        }
        args.push(vstd::slice::slice_to_vec(vstd::slice::slice_subrange(raw, 0, n)));
        i += 1;
    }
    store.args = Some(args);
}

/// Empties the store.
pub fn cleanup(store: &mut ArgStore)
    ensures
        final(store)@ == after(old(store)@, ArgEvent::Cleanup),
{
    store.args = None;
}

/// The arguments that the store holds, as a sequence of its own: it is a
/// copy, which nothing that is later done to the store or to another such
/// sequence changes.
pub fn args(store: &ArgStore) -> (args: Args)
    ensures
        args@ == snapshot(store@),
{
    let items: Vec<Vec<u8>> = match &store.args {
        Some(v) => copy_rows(v),
        None => Vec::new(),
    };
    let back: usize = items.len();
    let a = Args { items, front: 0, back };
    a
}

/// A sequence of arguments that can be walked from both ends.
pub struct Args {
    items: Vec<Vec<u8>>,
    front: usize,
    back: usize,
}

impl View for Args {
    type V = Seq<Seq<u8>>;

    closed spec fn view(&self) -> Seq<Seq<u8>> {
        rows(self.items@).subrange(self.front as int, self.back as int)
    }
}

impl Args {
    #[verifier::type_invariant]
    spec fn inv(&self) -> bool {
        self.front <= self.back <= self.items@.len()
    }

    /// Takes the first of the arguments that are left.
    pub fn next(&mut self) -> (arg: Option<Vec<u8>>)
        ensures
            match arg {
                Some(a) => old(self)@.len() > 0 && a@ == old(self)@.first() && final(self)@
                    == old(self)@.drop_first(),
                None => old(self)@.len() == 0 && final(self)@ == old(self)@,
            },
    {
        proof {
            use_type_invariant(&*self);
        }
        if self.front < self.back {
            let a = vstd::slice::slice_to_vec(self.items[self.front].as_slice());
            self.front = self.front + 1;
            Some(a)
        } else {
            None
        }
    }

    /// Takes the last of the arguments that are left.
    pub fn next_back(&mut self) -> (arg: Option<Vec<u8>>)
        ensures
            match arg {
                Some(a) => old(self)@.len() > 0 && a@ == old(self)@.last() && final(self)@
                    == old(self)@.drop_last(),
                None => old(self)@.len() == 0 && final(self)@ == old(self)@,
            },
    {
        proof {
            use_type_invariant(&*self);
        }
        if self.front < self.back {
            self.back = self.back - 1;
            let a = vstd::slice::slice_to_vec(self.items[self.back].as_slice());
            Some(a)
        } else {
            None
        }
    }

    /// The number of arguments that are left.
    pub fn len(&self) -> (n: usize)
        ensures
            n == self@.len(),
    {
        proof {
            use_type_invariant(self);
        }
        self.back - self.front
    }

    /// The bounds on the number of arguments that are left: both are that
    /// number.
    pub fn size_hint(&self) -> (hint: (usize, Option<usize>))
        ensures
            hint.0 == self@.len(),
            hint.1 == Some(self@.len() as usize),
    {
        let n = self.len();
        (n, Some(n))
    }
}

} // verus!
