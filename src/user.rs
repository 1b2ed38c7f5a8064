use crate::sources::fresh_id;
use vstd::prelude::*;

verus! {

#[verifier::external_type_specification]
#[verifier::external_body]
pub struct ExPetnames<'a>(petname::Petnames<'a>);

#[verifier::external_type_specification]
#[verifier::external_body]
pub struct ExStdRng(rand::rngs::StdRng);

/// Relies on petname::Petnames::medium: the built-in medium word lists.
#[verifier::external_body]
fn medium_word_lists() -> (p: petname::Petnames<'static>) {
    petname::Petnames::medium()
}

/// Relies on rand::SeedableRng::from_entropy for StdRng: a generator seeded
/// by the operating system.
#[verifier::external_body]
fn rng_from_entropy() -> (r: rand::rngs::StdRng) {
    <rand::rngs::StdRng as rand::SeedableRng>::from_entropy()
}

/// Relies on rand::SeedableRng::seed_from_u64 for StdRng: a generator seeded
/// with a fixed value.
#[verifier::external_body]
fn rng_from_seed(seed: u64) -> (r: rand::rngs::StdRng) {
    <rand::rngs::StdRng as rand::SeedableRng>::seed_from_u64(seed)
}

/// Relies on petname::Petnames::generate: three random words of the lists,
/// joined by a dash. Nothing is stated of the words drawn.
#[verifier::external_body]
fn draw_petname(words: &petname::Petnames<'static>, rng: &mut rand::rngs::StdRng) -> (s: String) {
    words.generate(rng, 3, "-")
}

/// Draws human-readable user handles from the medium petname word lists.
pub struct UserHandleGenerator {
    words: petname::Petnames<'static>,
    rng: rand::rngs::StdRng,
}

impl UserHandleGenerator {
    /// A generator seeded from the operating system.
    pub fn new() -> (g: Self) {
        UserHandleGenerator { words: medium_word_lists(), rng: rng_from_entropy() }
    }

    /// A generator with a fixed seed, for reproducible handles.
    pub fn _from_seed(seed: u64) -> (g: Self) {
        UserHandleGenerator { words: medium_word_lists(), rng: rng_from_seed(seed) }
    }

    /// Draws the next handle.
    pub fn gen(&mut self) -> (h: UserHandle) {
        UserHandle(draw_petname(&self.words, &mut self.rng))
    }
}

/// A human-readable user name; not unique.
pub struct UserHandle(String);

impl View for UserHandle {
    type V = Seq<char>;

    closed spec fn view(&self) -> Seq<char> {
        self.0@
    }
}

impl Clone for UserHandle {
    fn clone(&self) -> (r: Self)
        ensures
            r == *self,
    {
        UserHandle(self.0.clone())
    }
}

impl UserHandle {
    /// A handle with the given text.
    pub fn from_text(text: String) -> (h: Self)
        ensures
            h@ == text@,
    {
        UserHandle(text)
    }

    /// Draws a handle from `generator`.
    pub fn _from_gen(generator: &mut UserHandleGenerator) -> (h: Self) {
        generator.gen()
    }

    /// The handle's text.
    pub fn as_str(&self) -> (s: &str)
        ensures
            s@ == self@,
    {
        self.0.as_str()
    }
}

/// The mathematical value of a user: identifier and handle text.
pub struct UserView {
    pub id: u128,
    pub handle: Seq<char>,
}

/// An issued user identity. Immutable once issued.
pub struct User {
    id: u128,
    handle: UserHandle,
}

impl View for User {
    type V = UserView;

    closed spec fn view(&self) -> UserView {
        UserView { id: self.id, handle: self.handle@ }
    }
}

impl Clone for User {
    fn clone(&self) -> (r: Self)
        ensures
            r == *self,
    {
        User { id: self.id, handle: self.handle.clone() }
    }
}

impl User {
    /// A fresh user: a random identifier and a handle drawn from `generator`.
    pub fn new(generator: &mut UserHandleGenerator) -> (u: Self) {
        let id = fresh_id();
        User { id, handle: generator.gen() }
    }

    /// The user with the given identifier and handle.
    pub fn from_parts(id: u128, handle: UserHandle) -> (u: Self)
        ensures
            u@ == (UserView { id, handle: handle@ }),
    {
        User { id, handle }
    }

    pub fn id(&self) -> (id: u128)
        ensures
            id == self@.id,
    {
        self.id
    }

    pub fn handle(&self) -> (h: &UserHandle)
        ensures
            h@ == self@.handle,
    {
        &self.handle
    }

    /// The text a user is displayed by: its handle.
    pub fn to_string(&self) -> (s: String)
        ensures
            s@ == self@.handle,
    {
        self.handle.0.clone()
    }
}

} // verus!
