//! Endpoints and the table of handles through which a guest names them.

use vstd::prelude::*;

verus! {

/// What an endpoint hands to its destination: its own name and one message.
#[derive(Debug)]
pub struct Delivery {
    /// The name the endpoint was registered under.
    pub endpoint: String,
    /// The message, as the guest wrote it.
    pub message: String,
}

impl View for Delivery {
    type V = (Seq<char>, Seq<char>);

    open spec fn view(&self) -> (Seq<char>, Seq<char>) {
        (self.endpoint@, self.message@)
    }
}

/// A named logging destination. It does not change once it is made.
#[derive(Debug)]
pub struct Endpoint {
    name: String,
}

impl View for Endpoint {
    type V = Seq<char>;

    closed spec fn view(&self) -> Seq<char> {
        self.name@
    }
}

impl Endpoint {
    /// An endpoint called `name`.
    pub fn new(name: String) -> (endpoint: Endpoint)
        ensures
            endpoint@ == name@,
    {
        Endpoint { name }
    }

    /// The endpoint's name.
    pub fn name(&self) -> (name: &str)
        ensures
            name@ == self@,
    {
        self.name.as_str()
    }

    /// Forwards `message`: the result is what the destination receives, the
    /// message unchanged and under this endpoint's name.
    pub fn log(&self, message: &str) -> (delivery: Delivery)
        ensures
            delivery@ == (self@, message@),
    {
        Delivery { endpoint: self.name.clone(), message: message.to_owned() }
    }
}

/// Whether `handle` names an entry of a table that holds `size` endpoints.
pub open spec fn issued(size: nat, handle: i32) -> bool {
    0 <= handle < size
}

/// The endpoints of one session, in the order in which they were registered.
/// An endpoint's handle is its position; entries are added at the end and
/// never changed or removed.
#[derive(Debug)]
pub struct HandleTable {
    endpoints: Vec<Endpoint>,
}

impl View for HandleTable {
    type V = Seq<Seq<char>>;

    closed spec fn view(&self) -> Seq<Seq<char>> {
        Seq::new(self.endpoints@.len(), |i: int| self.endpoints@[i]@)
    }
}

impl HandleTable {
    /// A table without endpoints.
    pub fn new() -> (table: HandleTable)
        ensures
            table@ == Seq::<Seq<char>>::empty(),
    {
        let table = HandleTable { endpoints: Vec::new() };
        assert(table@ =~= Seq::<Seq<char>>::empty());
        table
    }

    /// How many endpoints were registered.
    pub fn len(&self) -> (n: usize)
        ensures
            n == self@.len(),
    {
        self.endpoints.len()
    }

    /// Adds an endpoint called `name` at the end and returns its handle.
    /// A name that is already there gets a further entry of its own. The
    /// table must have a handle left to give.
    pub fn register(&mut self, name: String) -> (handle: i32)
        requires
            old(self)@.len() < i32::MAX,
        ensures
            final(self)@ == old(self)@.push(name@),
            handle == old(self)@.len(),
    {
        let handle: i32 = self.endpoints.len() as i32;
        self.endpoints.push(Endpoint::new(name));
        assert(self@ =~= old(self)@.push(name@));
        handle
    }

    /// The endpoint that `handle` names, if the table issued that handle.
    pub fn lookup(&self, handle: i32) -> (found: Option<&Endpoint>)
        ensures
            found is Some <==> issued(self@.len(), handle),
            found is Some ==> found->Some_0@ == self@[handle as int],
    {
        if handle >= 0 && (handle as usize) < self.endpoints.len() {
            Some(&self.endpoints[handle as usize])
        } else {
            None
        }
    }
}

} // verus!
