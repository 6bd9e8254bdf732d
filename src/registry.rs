//! The registry from protocol name to driver, and the driver contract.
use vstd::prelude::*;
use crate::model::{ReaderPointRequest, Value, WriterPointRequest};
use crate::error::DriverError;

verus! {

/// The contract every protocol driver exposes. Drivers do their own device
/// I/O and their own internal synchronisation; they apply no unit scaling.
pub trait Driver {
    /// Reads the point's live value from the device.
    fn read_point(&self, request: &ReaderPointRequest) -> Result<Value, DriverError>;

    /// Writes the request's value to the device and returns the value that
    /// was actually committed, which may differ from the one requested.
    fn write_point(&self, request: &WriterPointRequest) -> Result<Value, DriverError>;
}

/// Protocol names in registration order, each with its driver.
pub struct ProtocolRegistry<D> {
    names: Vec<String>,
    drivers: Vec<D>,
}

/// Whether `name` is registered in `names`.
pub open spec fn has_name(names: Seq<Seq<char>>, name: Seq<char>) -> bool {
    exists|i: int| 0 <= i < names.len() && names[i] == name
}

/// The driver paired with `name` in a registry holding `names` and `drivers`.
pub open spec fn driver_in<D>(names: Seq<Seq<char>>, drivers: Seq<D>, name: Seq<char>) -> D {
    let i = choose|i: int| 0 <= i < names.len() && names[i] == name;
    drivers[i]
}

/// Once `name` is registered with `first`, the name is taken, so a second
/// registration under it is refused and leaves the registry unchanged (see
/// `register`), and the name still resolves to `first`.
pub proof fn lemma_duplicate_registration_keeps_first<D>(reg: ProtocolRegistry<D>, name: Seq<char>, first: D)
    requires
        reg.wf(),
        !reg.contains(name),
    ensures
        has_name(reg.names().push(name), name),
        driver_in(reg.names().push(name), reg.drivers().push(first), name) == first,
{
    let names = reg.names().push(name);
    let last = names.len() - 1;
    assert(names[last] == name);
    let k = choose|k: int| 0 <= k < names.len() && names[k] == name;
    if k != last {
        assert(reg.names()[k] == name);
    }
}

impl<D> ProtocolRegistry<D> {
    /// The registered names, in registration order.
    pub closed spec fn names(&self) -> Seq<Seq<char>> {
        self.names@.map_values(|s: String| s@)
    }

    /// The drivers, in the order of `names`.
    pub closed spec fn drivers(&self) -> Seq<D> {
        self.drivers@
    }

    /// Names and drivers line up and no name occurs twice.
    pub open spec fn wf(&self) -> bool {
        &&& self.names().len() == self.drivers().len()
        &&& self.names().no_duplicates()
    }

    pub open spec fn contains(&self, name: Seq<char>) -> bool {
        has_name(self.names(), name)
    }

    /// The driver registered under `name`, where there is one.
    pub open spec fn driver_of(&self, name: Seq<char>) -> D {
        driver_in(self.names(), self.drivers(), name)
    }

    /// An empty registry.
    pub fn new() -> (r: Self)
        ensures
            r.wf(),
            r.names() == Seq::<Seq<char>>::empty(),
    {
        let r = ProtocolRegistry { names: Vec::new(), drivers: Vec::new() };
        assert(r.names() =~= Seq::<Seq<char>>::empty());
        r
    }

    /// The index of `name`, if registered.
    fn position(&self, name: &String) -> (r: Option<usize>)
        requires
            self.wf(),
        ensures
            r is None <==> !self.contains(name@),
            r matches Some(i) ==> i < self.names().len() && self.names()[i as int] == name@,
    {
        let mut i: usize = 0;
        while i < self.names.len()
            invariant
                self.wf(),
                i <= self.names@.len(),
                forall|j: int| 0 <= j < i ==> self.names()[j] != name@,
            decreases self.names@.len() - i,
        {
            assert(self.names()[i as int] == self.names@[i as int]@);
            if self.names[i] == *name {
                return Some(i);
            }
            i = i + 1;
        }
        None
    }

    /// Whether a driver is registered under `name`.
    pub fn contains_name(&self, name: &String) -> (r: bool)
        requires
            self.wf(),
        ensures
            r == self.contains(name@),
    {
        self.position(name).is_some()
    }

    /// The driver registered under `name`.
    pub fn get(&self, name: &String) -> (r: Option<&D>)
        requires
            self.wf(),
        ensures
            r is Some <==> self.contains(name@),
            r matches Some(d) ==> *d == self.driver_of(name@),
    {
        match self.position(name) {
            Some(i) => {
                proof { self.lemma_driver_at(name@, i as int); }
                Some(&self.drivers[i])
            },
            None => None,
        }
    }

    pub proof fn lemma_driver_at(&self, name: Seq<char>, i: int)
        requires
            self.wf(),
            0 <= i < self.names().len(),
            self.names()[i] == name,
        ensures
            self.driver_of(name) == self.drivers()[i],
    {
        let k = choose|k: int| 0 <= k < self.names().len() && self.names()[k] == name;
        assert(self.names()[k] == self.names()[i]);
    }

    /// Registers `driver` under `name`. An already registered name is refused
    /// and the registry is left as it was.
    pub fn register(&mut self, name: String, driver: D) -> (r: Result<(), crate::error::LoadError>)
        requires
            old(self).wf(),
        ensures
            final(self).wf(),
            r is Err <==> old(self).contains(name@),
            r matches Err(e) ==> e == crate::error::LoadError::DuplicateProtocol(name),
            r is Err ==> *final(self) == *old(self),
            r is Ok ==> final(self).names() == old(self).names().push(name@),
            r is Ok ==> final(self).drivers() == old(self).drivers().push(driver),
    {
        if self.contains_name(&name) {
            return Err(crate::error::LoadError::DuplicateProtocol(name));
        }
        let ghost old_names = self.names();
        self.names.push(name);
        self.drivers.push(driver);
        proof {
            assert(self.names() =~= old_names.push(name@));
            assert forall|a: int, b: int|
                0 <= a < b < self.names().len() implies self.names()[a] != self.names()[b] by {
                if b == self.names().len() - 1 {
                    assert(old_names[a] == self.names()[a]);
                }
            }
        }
        Ok(())
    }

    /// Registers `driver` under `name`, replacing the driver already registered
    /// there, if any, in its place in the order.
    pub fn reload(&mut self, name: String, driver: D)
        requires
            old(self).wf(),
        ensures
            final(self).wf(),
            old(self).contains(name@) ==> final(self).names() == old(self).names(),
            !old(self).contains(name@) ==> final(self).names() == old(self).names().push(name@),
            final(self).contains(name@),
            final(self).driver_of(name@) == driver,
            forall|n: Seq<char>| old(self).contains(n) ==> final(self).contains(n),
            forall|n: Seq<char>| n != name@ && old(self).contains(n) ==>
                final(self).driver_of(n) == old(self).driver_of(n),
    {
        match self.position(&name) {
            Some(i) => {
                let ghost old_self = *self;
                self.drivers.set(i, driver);
                proof {
                    assert(self.names() == old_self.names());
                    self.lemma_driver_at(name@, i as int);
                    assert forall|n: Seq<char>| n != name@ && old_self.contains(n) implies
                        self.driver_of(n) == old_self.driver_of(n) by {
                        let k = choose|k: int| 0 <= k < old_self.names().len() && old_self.names()[k] == n;
                        old_self.lemma_driver_at(n, k);
                        self.lemma_driver_at(n, k);
                    }
                }
            },
            None => {
                let ghost old_self = *self;
                let _ = self.register(name, driver);
                proof {
                    let last = self.names().len() - 1;
                    assert(self.names()[last] == name@);
                    assert forall|n: Seq<char>| old_self.contains(n) implies self.contains(n) by {
                        let k = choose|k: int| 0 <= k < old_self.names().len() && old_self.names()[k] == n;
                        assert(self.names()[k] == old_self.names()[k]);
                    }
                    self.lemma_driver_at(name@, last);
                    assert forall|n: Seq<char>| n != name@ && old_self.contains(n) implies
                        self.driver_of(n) == old_self.driver_of(n) by {
                        let k = choose|k: int| 0 <= k < old_self.names().len() && old_self.names()[k] == n;
                        old_self.lemma_driver_at(n, k);
                        assert(self.names()[k] == old_self.names()[k]);
                        self.lemma_driver_at(n, k);
                    }
                }
            },
        }
    }

    /// The registered protocol names, in registration order.
    pub fn list(&self) -> (r: Vec<String>)
        ensures
            r@.map_values(|s: String| s@) == self.names(),
    {
        let mut out: Vec<String> = Vec::new();
        let mut i: usize = 0;
        while i < self.names.len()
            invariant
                i <= self.names@.len(),
                out@.map_values(|s: String| s@) == self.names().subrange(0, i as int),
            decreases self.names@.len() - i,
        {
            let ghost prev = out@;
            let s = self.names[i].clone();
            out.push(s);
            proof {
                assert(out@ == prev.push(s));
                assert(self.names()[i as int] == s@);
                assert(out@.map_values(|s: String| s@) =~= prev.map_values(|s: String| s@).push(s@));
                assert(self.names().subrange(0, i + 1) =~= self.names().subrange(0, i as int).push(s@));
            }
            i = i + 1;
        }
        assert(self.names().subrange(0, i as int) =~= self.names());
        out
    }

    /// The number of registered protocols.
    pub fn len(&self) -> (r: usize)
        requires
            self.wf(),
        ensures
            r == self.names().len(),
    {
        self.names.len()
    }
}

} // verus!
