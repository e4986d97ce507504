use vstd::prelude::*;
use vstd::string::StringExecFns;

verus! {

/// A person known by name.
pub struct Person {
    name: String,
}

impl View for Person {
    type V = Seq<char>;

    /// The person's name as a sequence of characters.
    closed spec fn view(&self) -> Seq<char> {
        self.name@
    }
}

/// The text of the greeting addressed to someone called `name`.
pub open spec fn greeting_of(name: Seq<char>) -> Seq<char> {
    "Hello, "@ + name + "!"@
}

impl Person {
    /// Creates a person called `name`.
    pub fn new(name: &str) -> (r: Person)
        ensures
            r@ == name@,
    {
        Person { name: name.to_string() }
    }

    /// The person's name.
    pub fn name(&self) -> (r: &str)
        ensures
            r@ == self@,
    {
        self.name.as_str()
    }

    /// The greeting for this person: `Hello, <name>!`.
    pub fn greeting(&self) -> (r: String)
        ensures
            r@ == greeting_of(self@),
    {
        let mut r = String::from_str("Hello, ");
        r.append(self.name.as_str());
        r.append("!");
        proof {
            reveal_strlit("Hello, ");
            reveal_strlit("!");
        }
        r
    }
}

} // verus!
