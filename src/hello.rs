use vstd::prelude::*;

verus! {

broadcast use vstd::string::group_string_axioms;

/// The HTTP status of the hello reply: 418, "I'm a teapot", a placeholder
/// marker rather than an error.
pub const IM_A_TEAPOT: u16 = 418;

/// The body of the hello reply, a record of two text fields.
pub struct HelloWorld {
    pub hello: String,
    pub world: String,
}

/// The text of the `hello` field.
pub open spec fn hello_text() -> Seq<char> {
    "Hello "@
}

/// The text of the `world` field.
pub open spec fn world_text() -> Seq<char> {
    "World!"@
}

/// A reply carries the teapot status and the two fixed texts.
pub open spec fn is_hello_reply(status: u16, body: HelloWorld) -> bool {
    &&& status == 418
    &&& body.hello@ == hello_text()
    &&& body.world@ == world_text()
}

/// The reply to `GET /api/hello`: it consults no input and is the same on
/// every call.
pub fn hello() -> (r: (u16, HelloWorld))
    ensures
        is_hello_reply(r.0, r.1),
{
    let body = HelloWorld { hello: "Hello ".to_string(), world: "World!".to_string() };
    (IM_A_TEAPOT, body)
}

/// Two replies of the hello handler are the same reply: the handler keeps
/// no state, so neither earlier calls nor concurrent ones change what it
/// returns.
pub proof fn lemma_hello_is_repeatable(s1: u16, b1: HelloWorld, s2: u16, b2: HelloWorld)
    requires
        is_hello_reply(s1, b1),
        is_hello_reply(s2, b2),
    ensures
        s1 == s2,
        b1.hello@ == b2.hello@,
        b1.world@ == b2.world@,
{
}

} // verus!
