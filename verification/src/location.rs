//! Source locations.

use vstd::prelude::*;
use crate::fmt::{render, rendered, FmtError};
use crate::foreign::{ask, replied, serves, Call, Reply};
use crate::private::Sealed;
use crate::attribute::Attribute;
use crate::raw::MlirLocation;
use crate::string_ref::StringRef;

verus! {

/// A place in some source text. Uniqued: copies refer to the same location,
/// which lives as long as its context.
#[derive(Clone, Copy, Debug)]
pub struct Location {
    pub(crate) inner: MlirLocation,
}

impl View for Location {
    type V = MlirLocation;

    closed spec fn view(&self) -> MlirLocation {
        self.inner
    }
}

impl Sealed for Location {
}

impl Location {
    #[verifier::type_invariant]
    spec fn live(self) -> bool {
        !self.inner.is_null()
    }

    /// Whether `wrapped` is what wrapping `raw` gives: nothing for the null
    /// handle, and otherwise a value that holds `raw`.
    pub open spec fn wraps(wrapped: Option<Location>, raw: MlirLocation) -> bool {
        match wrapped {
            Some(w) => w@ == raw && !raw.is_null(),
            None => raw.is_null(),
        }
    }

    /// Wraps a raw handle.
    pub fn from_raw(raw: MlirLocation) -> (wrapped: Option<Location>)
        ensures
            Location::wraps(wrapped, raw),
    {
        if raw.is_null() {
            return None;
        }
        Some(Location { inner: raw })
    }

    /// The raw handle, for passing to the foreign interface. It is never
    /// null.
    pub fn as_raw(&self) -> (raw: MlirLocation)
        ensures
            raw == self@,
            !raw.is_null(),
    {
        proof {
            use_type_invariant(self);
        }
        self.inner
    }

    /// Whether the foreign library holds the two to be equal.
    pub fn eq<'r, F: Fn(Call<'_>) -> Reply<'r>>(&self, other: &Location, ffi: &F) -> (equal: bool)
        requires
            serves(ffi),
        ensures
            exists|reply: Reply<'r>| #[trigger]
                replied(ffi, Call::LocationEqual { a: self@, b: other@ }, reply) && equal
                    == reply.flag(),
    {
        let reply = ask(ffi, Call::LocationEqual { a: self.as_raw(), b: other.as_raw() });
        reply.flag()
    }

    /// The text the foreign library prints for the value, or the error if
    /// what it printed is not well-formed UTF-8.
    pub fn print<'r, F: Fn(Call<'_>) -> Reply<'r>>(&self, ffi: &F) -> (text: Result<String, FmtError>)
        requires
            serves(ffi),
        ensures
            exists|reply: Reply<'r>| #[trigger]
                replied(ffi, Call::LocationPrint { location: self@ }, reply) && rendered(
                    reply.printed(),
                    text,
                ),
    {
        let reply = ask(ffi, Call::LocationPrint { location: self.as_raw() });
        render(&reply)
    }

    /// The location of a call: `callee` as reached from `caller`.
    pub fn call_site<'r, F: Fn(Call<'_>) -> Reply<'r>>(callee: Location, caller: Location, ffi: &F) -> (location:
        Option<Location>)
        requires
            serves(ffi),
        ensures
            exists|reply: Reply<'r>| #[trigger]
                replied(
                    ffi,
                    Call::LocationCallSiteGet { callee: callee@, caller: caller@ },
                    reply,
                ) && Location::wraps(location, reply.location()),
    {
        let reply = ask(
            ffi,
            Call::LocationCallSiteGet { callee: callee.as_raw(), caller: caller.as_raw() },
        );
        Location::from_raw(reply.location())
    }

    /// The location at `line` and `col` of the file named `filename`.
    pub fn file_line_col<'r, F: Fn(Call<'_>) -> Reply<'r>>(
        filename: StringRef<'_>,
        line: u32,
        col: u32,
        ffi: &F,
    ) -> (location: Option<Location>)
        requires
            serves(ffi),
        ensures
            exists|call: Call<'_>, reply: Reply<'r>| #[trigger]
                replied(ffi, call, reply) && (call matches Call::LocationFileLineColGet {
                    filename: f,
                    line: l,
                    col: c,
                } && f@ == filename@ && l == line && c == col) && Location::wraps(
                    location,
                    reply.location(),
                ),
    {
        let reply = ask(
            ffi,
            Call::LocationFileLineColGet { filename: filename.as_raw(), line, col },
        );
        Location::from_raw(reply.location())
    }

    /// The location that stands for all of `locations` at once, with
    /// `metadata` attached.
    pub fn fused<'r, F: Fn(Call<'_>) -> Reply<'r>>(locations: &[Location], metadata: Attribute, ffi: &F) -> (location:
        Option<Location>)
        requires
            serves(ffi),
        ensures
            exists|call: Call<'_>, reply: Reply<'r>| #[trigger]
                replied(ffi, call, reply) && (call matches Call::LocationFusedGet {
                    locations: l,
                    metadata: m,
                } && l@ == location_handles(locations@) && m == metadata@) && Location::wraps(
                    location,
                    reply.location(),
                ),
    {
        let raws = raw_locations(locations);
        let reply = ask(
            ffi,
            Call::LocationFusedGet { locations: raws.as_slice(), metadata: metadata.as_raw() },
        );
        Location::from_raw(reply.location())
    }

    /// The location of which nothing is known.
    pub fn unknown<'r, F: Fn(Call<'_>) -> Reply<'r>>(ffi: &F) -> (location: Option<Location>)
        requires
            serves(ffi),
        ensures
            exists|reply: Reply<'r>| #[trigger]
                replied(ffi, Call::LocationUnknownGet, reply) && Location::wraps(
                    location,
                    reply.location(),
                ),
    {
        let reply = ask(ffi, Call::LocationUnknownGet);
        Location::from_raw(reply.location())
    }
}

/// The raw handles of `locations`, in order.
pub open spec fn location_handles(locations: Seq<Location>) -> Seq<MlirLocation> {
    locations.map_values(|l: Location| l@)
}

/// Lays `locations` out as the foreign interface takes them.
pub fn raw_locations(locations: &[Location]) -> (raws: Vec<MlirLocation>)
    ensures
        raws@ == location_handles(locations@),
{
    let mut raws: Vec<MlirLocation> = Vec::new();
    let mut i: usize = 0;
    while i < locations.len()
        invariant
            i <= locations.len(),
            raws@ == location_handles(locations@.take(i as int)),
        decreases locations.len() - i,
    {
        raws.push(locations[i].as_raw());
        assert(location_handles(locations@.take(i + 1)) =~= location_handles(locations@.take(i as int)).push(
            locations@[i as int]@,
        ));
        i += 1;
    }
    assert(locations@.take(i as int) =~= locations@);
    raws
}

} // verus!
