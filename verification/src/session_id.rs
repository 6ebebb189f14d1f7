use vstd::prelude::*;

verus! {

/// The number of characters in a generated session ID.
pub const SESSION_ID_LENGTH: usize = 32;

/// An ASCII letter or digit.
pub open spec fn is_alphanumeric(c: char) -> bool {
    ||| 'a' <= c <= 'z'
    ||| 'A' <= c <= 'Z'
    ||| '0' <= c <= '9'
}

/// The form of a generated session ID.
pub open spec fn is_generated_form(id: Seq<char>) -> bool {
    &&& id.len() == SESSION_ID_LENGTH
    &&& forall|i: int| 0 <= i < id.len() ==> is_alphanumeric(#[trigger] id[i])
}

/// `fastrand::alphanumeric` returns a random `char` in the ranges a-z, A-Z and 0-9. Which one is
/// left to chance.
pub assume_specification[ fastrand::alphanumeric ]() -> (c: char)
    ensures
        is_alphanumeric(c),
;

/// Appends one character to a string: `String::push`.
pub assume_specification[ String::push ](text: &mut String, c: char)
    ensures
        final(text)@ == old(text)@.push(c),
;

/// A random session ID: it has the form of a generated one, and each of its characters is one
/// that `fastrand::alphanumeric` returned.
pub open spec fn is_random_id(id: Seq<char>) -> bool {
    &&& is_generated_form(id)
    &&& forall|i: int|
        0 <= i < id.len() ==> call_ensures(fastrand::alphanumeric, (), #[trigger] id[i])
}

/// Draws a random session ID.
pub fn random_session_id() -> (id: String)
    ensures
        is_random_id(id@),
        id@.len() == 32,
        forall|i: int|
            0 <= i < id@.len() ==> 'a' <= #[trigger] id@[i] <= 'z' || 'A' <= id@[i] <= 'Z' || '0'
                <= id@[i] <= '9',
{
    let mut id = String::new();
    let mut drawn: usize = 0;
    while drawn < SESSION_ID_LENGTH
        invariant
            drawn <= SESSION_ID_LENGTH,
            id@.len() == drawn,
            forall|i: int| 0 <= i < id@.len() ==> is_alphanumeric(#[trigger] id@[i]),
            forall|i: int|
                0 <= i < id@.len() ==> call_ensures(fastrand::alphanumeric, (), #[trigger] id@[i]),
        decreases SESSION_ID_LENGTH - drawn,
    {
        id.push(fastrand::alphanumeric());
        drawn += 1;
    }
    id
}

/// Every one of these is a random session ID.
pub open spec fn all_generated(ids: Seq<Seq<char>>) -> bool {
    forall|i: int| 0 <= i < ids.len() ==> is_random_id(#[trigger] ids[i])
}

/// Where random session IDs are drawn from.
///
/// It keeps account of what has been drawn, so that contracts can speak of it. The account does
/// not exist at run time.
pub struct IdSource {
    drawn: Ghost<Seq<Seq<char>>>,
}

impl IdSource {
    /// The IDs that have been drawn so far, in this order.
    pub closed spec fn drawn(self) -> Seq<Seq<char>> {
        self.drawn@
    }

    /// The IDs that have been drawn since `earlier`.
    pub open spec fn drawn_since(self, earlier: Self) -> Seq<Seq<char>> {
        self.drawn().skip(earlier.drawn().len() as int)
    }

    /// A source that nothing has been drawn from yet.
    pub fn new() -> (source: Self)
        ensures
            source.drawn() == Seq::<Seq<char>>::empty(),
    {
        IdSource { drawn: Ghost(Seq::empty()) }
    }

    /// Draws a random session ID.
    pub fn draw(&mut self) -> (id: String)
        ensures
            is_random_id(id@),
            id@.len() == 32,
            final(self).drawn() == old(self).drawn().push(id@),
    {
        let id = random_session_id();
        proof {
            self.drawn@ = self.drawn@.push(id@);
        }
        id
    }
}

} // verus!
