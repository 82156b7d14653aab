//! Strict decoding of parsed JSON documents into typed records.
//!
//! The policy is strict: a decode either fully succeeds — every required
//! field present and of the right type — or fails as a whole with
//! [`Error::Decode`]; no record is ever partially filled or defaulted.
//! Field names are matched exactly against the wire body, including the
//! names that are reserved words here (`type`, `move`), which the decoders
//! map onto the records' renamed fields.

use vstd::prelude::*;

use crate::error::Error;
use crate::json::spec_member;
use crate::json::member;
use crate::json::parse_json;
use crate::json::parsed_json;
use crate::json::JsonValue;
use crate::model::berries::berry_maps_view;
use crate::model::berries::flavor_maps_view;
use crate::model::berries::Berry;
use crate::model::berries::BerryFlavor;
use crate::model::berries::BerryFlavorMap;
use crate::model::berries::BerryFlavorView;
use crate::model::berries::BerryFirmness;
use crate::model::berries::BerryMapView;
use crate::model::berries::BerryView;
use crate::model::berries::FirmnessView;
use crate::model::berries::FlavorBerryMap;
use crate::model::berries::FlavorMapView;
use crate::model::games::entries_view;
use crate::model::games::EntryView;
use crate::model::games::Generation;
use crate::model::games::GenerationView;
use crate::model::games::Pokedex;
use crate::model::games::PokedexView;
use crate::model::games::PokemonEntry;
use crate::model::games::Version;
use crate::model::games::VersionGroup;
use crate::model::games::VersionGroupView;
use crate::model::games::VersionView;
use crate::model::machines::Machine;
use crate::model::machines::MachineView;
use crate::model::resource::descriptions_view;
use crate::model::resource::Description;
use crate::model::resource::DescriptionView;
use crate::model::resource::anon_refs_view;
use crate::model::resource::names_view;
use crate::model::resource::refs_view;
use crate::model::resource::AnonPageView;
use crate::model::resource::ApiResource;
use crate::model::resource::ApiResourceList;
use crate::model::resource::Name;
use crate::model::resource::NameView;
use crate::model::resource::NamedApiResource;
use crate::model::resource::NamedApiResourceList;
use crate::model::resource::PageView;
use crate::model::resource::RefView;
use crate::model::utility::Language;
use crate::model::utility::LanguageView;

verus! {

/// The required integer member `key` of `v`, if `v` is an object holding
/// one.
pub open spec fn spec_int_member(v: JsonValue, key: Seq<char>) -> Option<i64> {
    match spec_member(v, key) {
        Some(JsonValue::Int(i)) => Some(i),
        _ => None,
    }
}

/// The required boolean member `key` of `v`.
pub open spec fn spec_bool_member(v: JsonValue, key: Seq<char>) -> Option<bool> {
    match spec_member(v, key) {
        Some(JsonValue::Bool(b)) => Some(b),
        _ => None,
    }
}

/// The required string member `key` of `v`.
pub open spec fn spec_str_member(v: JsonValue, key: Seq<char>) -> Option<Seq<char>> {
    match spec_member(v, key) {
        Some(JsonValue::Str(s)) => Some(s@),
        _ => None,
    }
}

/// The optional string member `key` of `v`: an absent member and a `null`
/// both decode to nothing, and only a member of the wrong type is a
/// failure (the outer `None`).
pub open spec fn spec_opt_str_member(v: JsonValue, key: Seq<char>) -> Option<Option<Seq<char>>> {
    match spec_member(v, key) {
        None => Some(None),
        Some(JsonValue::Null) => Some(None),
        Some(JsonValue::Str(s)) => Some(Some(s@)),
        Some(_) => None,
    }
}

/// The elements of the required array member `key` of `v`.
pub open spec fn spec_arr_member(v: JsonValue, key: Seq<char>) -> Option<Seq<JsonValue>> {
    match spec_member(v, key) {
        Some(JsonValue::Arr(items)) => Some(items@),
        _ => None,
    }
}

/// A named reference decoded from `v`: an object with `name` and `url`
/// string members.
pub open spec fn spec_ref(v: JsonValue) -> Option<RefView> {
    match (spec_str_member(v, "name"@), spec_str_member(v, "url"@)) {
        (Some(n), Some(u)) => Some(RefView { name: n, url: u }),
        _ => None,
    }
}

/// The required named-reference member `key` of `v`.
pub open spec fn spec_ref_member(v: JsonValue, key: Seq<char>) -> Option<RefView> {
    match spec_member(v, key) {
        Some(m) => spec_ref(m),
        None => None,
    }
}

/// All elements of `items` decoded as named references, in order; nothing
/// if any single element fails.
pub open spec fn spec_refs(items: Seq<JsonValue>) -> Option<Seq<RefView>> {
    if forall|i: int| 0 <= i < items.len() ==> spec_ref(#[trigger] items[i]) is Some {
        Some(Seq::new(items.len(), |i: int| spec_ref(items[i])->0))
    } else {
        None
    }
}

/// Reads the required integer member `key` of `v`.
pub fn int_member(v: &JsonValue, key: &str) -> (r: Result<i64, Error>)
    ensures
        match spec_int_member(*v, key@) {
            Some(i) => r matches Ok(x) && x == i,
            None => r matches Err(e) && e is Decode,
        },
{
    match member(v, key) {
        Some(JsonValue::Int(i)) => Ok(*i),
        _ => Err(Error::Decode),
    }
}

/// Reads the required boolean member `key` of `v`.
pub fn bool_member(v: &JsonValue, key: &str) -> (r: Result<bool, Error>)
    ensures
        match spec_bool_member(*v, key@) {
            Some(b) => r matches Ok(x) && x == b,
            None => r matches Err(e) && e is Decode,
        },
{
    match member(v, key) {
        Some(JsonValue::Bool(b)) => Ok(*b),
        _ => Err(Error::Decode),
    }
}

/// Reads the required string member `key` of `v`.
pub fn str_member(v: &JsonValue, key: &str) -> (r: Result<String, Error>)
    ensures
        match spec_str_member(*v, key@) {
            Some(s) => r matches Ok(x) && x@ == s,
            None => r matches Err(e) && e is Decode,
        },
{
    match member(v, key) {
        Some(JsonValue::Str(s)) => Ok(s.clone()),
        _ => Err(Error::Decode),
    }
}

/// Reads the optional string member `key` of `v`; absent or `null` is
/// nothing, a member of any other non-string type is a failure.
pub fn opt_str_member(v: &JsonValue, key: &str) -> (r: Result<Option<String>, Error>)
    ensures
        match spec_opt_str_member(*v, key@) {
            Some(Some(s)) => r matches Ok(x) && (x matches Some(y) && y@ == s),
            Some(None) => r matches Ok(x) && x is None,
            None => r matches Err(e) && e is Decode,
        },
{
    match member(v, key) {
        None => Ok(None),
        Some(JsonValue::Null) => Ok(None),
        Some(JsonValue::Str(s)) => Ok(Some(s.clone())),
        Some(_) => Err(Error::Decode),
    }
}

/// Decodes one named reference.
pub fn decode_ref(v: &JsonValue) -> (r: Result<NamedApiResource, Error>)
    ensures
        match spec_ref(*v) {
            Some(rv) => r matches Ok(x) && x@ == rv,
            None => r matches Err(e) && e is Decode,
        },
{
    let name = match str_member(v, "name") {
        Ok(s) => s,
        Err(e) => {
            return Err(e);
        },
    };
    let url = match str_member(v, "url") {
        Ok(s) => s,
        Err(e) => {
            return Err(e);
        },
    };
    Ok(NamedApiResource { name, url })
}

/// Reads the required named-reference member `key` of `v`.
pub fn ref_member(v: &JsonValue, key: &str) -> (r: Result<NamedApiResource, Error>)
    ensures
        match spec_ref_member(*v, key@) {
            Some(rv) => r matches Ok(x) && x@ == rv,
            None => r matches Err(e) && e is Decode,
        },
{
    match member(v, key) {
        Some(m) => decode_ref(m),
        None => Err(Error::Decode),
    }
}

/// Decodes every element of `items` as a named reference, keeping the wire
/// order.
pub fn decode_refs(items: &Vec<JsonValue>) -> (r: Result<Vec<NamedApiResource>, Error>)
    ensures
        match spec_refs(items@) {
            Some(s) => r matches Ok(v) && refs_view(v@) == s,
            None => r matches Err(e) && e is Decode,
        },
{
    let mut out: Vec<NamedApiResource> = Vec::new();
    let n = items.len();
    let mut i: usize = 0;
    while i < n
        invariant
            n == items@.len(),
            i <= n,
            out@.len() == i,
            forall|j: int|
                0 <= j < i ==> spec_ref(#[trigger] items@[j]) is Some && out@[j]@ == spec_ref(
                    items@[j],
                )->0,
        decreases n - i,
    {
        let x = match decode_ref(&items[i]) {
            Ok(x) => x,
            Err(e) => {
                proof {
                    assert(spec_ref(items@[i as int]) is None);
                    assert(spec_refs(items@) is None);
                }
                return Err(e);
            },
        };
        out.push(x);
        i = i + 1;
    }
    proof {
        assert(spec_refs(items@) matches Some(s) && refs_view(out@) =~= s);
    }
    Ok(out)
}

/// The elements of the required array member `key` of `v`, each decoded as
/// a named reference.
pub open spec fn spec_refs_member(v: JsonValue, key: Seq<char>) -> Option<Seq<RefView>> {
    match spec_arr_member(v, key) {
        Some(items) => spec_refs(items),
        None => None,
    }
}

/// Reads the required array member `key` of `v` and decodes every element
/// as a named reference.
pub fn refs_member(v: &JsonValue, key: &str) -> (r: Result<Vec<NamedApiResource>, Error>)
    ensures
        match spec_refs_member(*v, key@) {
            Some(s) => r matches Ok(x) && refs_view(x@) == s,
            None => r matches Err(e) && e is Decode,
        },
{
    match member(v, key) {
        Some(JsonValue::Arr(items)) => decode_refs(items),
        _ => Err(Error::Decode),
    }
}

/// One localized name decoded from `v`: the `name` string and the
/// `language` reference.
pub open spec fn spec_name(v: JsonValue) -> Option<NameView> {
    match (spec_str_member(v, "name"@), spec_ref_member(v, "language"@)) {
        (Some(n), Some(l)) => Some(NameView { name: n, language: l }),
        _ => None,
    }
}

/// Decodes one localized name.
pub fn decode_name(v: &JsonValue) -> (r: Result<Name, Error>)
    ensures
        match spec_name(*v) {
            Some(nv) => r matches Ok(x) && x@ == nv,
            None => r matches Err(e) && e is Decode,
        },
{
    let name = match str_member(v, "name") {
        Ok(s) => s,
        Err(e) => {
            return Err(e);
        },
    };
    let language = match ref_member(v, "language") {
        Ok(l) => l,
        Err(e) => {
            return Err(e);
        },
    };
    Ok(Name { name, language })
}

/// All elements of `items` decoded as localized names, in order.
pub open spec fn spec_names(items: Seq<JsonValue>) -> Option<Seq<NameView>> {
    if forall|i: int| 0 <= i < items.len() ==> spec_name(#[trigger] items[i]) is Some {
        Some(Seq::new(items.len(), |i: int| spec_name(items[i])->0))
    } else {
        None
    }
}

/// Decodes every element of `items` as a localized name, keeping the wire
/// order.
pub fn decode_names(items: &Vec<JsonValue>) -> (r: Result<Vec<Name>, Error>)
    ensures
        match spec_names(items@) {
            Some(s) => r matches Ok(v) && names_view(v@) == s,
            None => r matches Err(e) && e is Decode,
        },
{
    let mut out: Vec<Name> = Vec::new();
    let n = items.len();
    let mut i: usize = 0;
    while i < n
        invariant
            n == items@.len(),
            i <= n,
            out@.len() == i,
            forall|j: int|
                0 <= j < i ==> spec_name(#[trigger] items@[j]) is Some && out@[j]@ == spec_name(
                    items@[j],
                )->0,
        decreases n - i,
    {
        let x = match decode_name(&items[i]) {
            Ok(x) => x,
            Err(e) => {
                proof {
                    assert(spec_name(items@[i as int]) is None);
                    assert(spec_names(items@) is None);
                }
                return Err(e);
            },
        };
        out.push(x);
        i = i + 1;
    }
    proof {
        assert(spec_names(items@) matches Some(s) && names_view(out@) =~= s);
    }
    Ok(out)
}

/// The required array member `key` of `v`, each element decoded as a
/// localized name.
pub open spec fn spec_names_member(v: JsonValue, key: Seq<char>) -> Option<Seq<NameView>> {
    match spec_arr_member(v, key) {
        Some(items) => spec_names(items),
        None => None,
    }
}

/// Reads the required array member `key` of `v` and decodes every element
/// as a localized name.
pub fn names_member(v: &JsonValue, key: &str) -> (r: Result<Vec<Name>, Error>)
    ensures
        match spec_names_member(*v, key@) {
            Some(s) => r matches Ok(x) && names_view(x@) == s,
            None => r matches Err(e) && e is Decode,
        },
{
    match member(v, key) {
        Some(JsonValue::Arr(items)) => decode_names(items),
        _ => Err(Error::Decode),
    }
}

/// The members of one index page of named references: `count`, `next`,
/// `previous`, `results`.
pub open spec fn spec_page(v: JsonValue) -> Option<PageView> {
    match (
        spec_int_member(v, "count"@),
        spec_opt_str_member(v, "next"@),
        spec_opt_str_member(v, "previous"@),
        spec_arr_member(v, "results"@),
    ) {
        (Some(c), Some(nx), Some(pv), Some(items)) => match spec_refs(items) {
            Some(rs) => Some(PageView { count: c as int, next: nx, previous: pv, results: rs }),
            None => None,
        },
        _ => None,
    }
}

/// Decodes one index page of named references.
pub fn decode_page(v: &JsonValue) -> (r: Result<NamedApiResourceList, Error>)
    ensures
        match spec_page(*v) {
            Some(pv) => r matches Ok(p) && p@ == pv,
            None => r matches Err(e) && e is Decode,
        },
{
    let count = match int_member(v, "count") {
        Ok(c) => c,
        Err(e) => {
            return Err(e);
        },
    };
    let next = match opt_str_member(v, "next") {
        Ok(x) => x,
        Err(e) => {
            return Err(e);
        },
    };
    let previous = match opt_str_member(v, "previous") {
        Ok(x) => x,
        Err(e) => {
            return Err(e);
        },
    };
    let results = match member(v, "results") {
        Some(JsonValue::Arr(items)) => match decode_refs(items) {
            Ok(rs) => rs,
            Err(e) => {
                return Err(e);
            },
        },
        _ => {
            return Err(Error::Decode);
        },
    };
    Ok(NamedApiResourceList { count, next, previous, results })
}

/// Parses `body` and decodes it as one index page: the full strict path
/// from wire text to a typed page.
pub fn page_from_body(body: &str) -> (r: Result<NamedApiResourceList, Error>)
    ensures
        match parsed_json(body@) {
            Some(doc) => match spec_page(doc) {
                Some(pv) => r matches Ok(p) && p@ == pv,
                None => r matches Err(e) && e is Decode,
            },
            None => r matches Err(e) && e is Decode,
        },
{
    match parse_json(body) {
        Some(doc) => decode_page(&doc),
        None => Err(Error::Decode),
    }
}

/// An anonymous reference decoded from `v`: an object with a `url` string
/// member; this is the URL-only shape used by the few kinds that are never
/// indexed by name.
pub open spec fn spec_anon_ref(v: JsonValue) -> Option<Seq<char>> {
    spec_str_member(v, "url"@)
}

/// Decodes one anonymous reference.
pub fn decode_anon_ref(v: &JsonValue) -> (r: Result<ApiResource, Error>)
    ensures
        match spec_anon_ref(*v) {
            Some(u) => r matches Ok(x) && x@ == u,
            None => r matches Err(e) && e is Decode,
        },
{
    let url = match str_member(v, "url") {
        Ok(s) => s,
        Err(e) => {
            return Err(e);
        },
    };
    Ok(ApiResource { url })
}

/// All elements of `items` decoded as anonymous references, in order.
pub open spec fn spec_anon_refs(items: Seq<JsonValue>) -> Option<Seq<Seq<char>>> {
    if forall|i: int| 0 <= i < items.len() ==> spec_anon_ref(#[trigger] items[i]) is Some {
        Some(Seq::new(items.len(), |i: int| spec_anon_ref(items[i])->0))
    } else {
        None
    }
}

/// Decodes every element of `items` as an anonymous reference, keeping the
/// wire order.
pub fn decode_anon_refs(items: &Vec<JsonValue>) -> (r: Result<Vec<ApiResource>, Error>)
    ensures
        match spec_anon_refs(items@) {
            Some(s) => r matches Ok(v) && anon_refs_view(v@) == s,
            None => r matches Err(e) && e is Decode,
        },
{
    let mut out: Vec<ApiResource> = Vec::new();
    let n = items.len();
    let mut i: usize = 0;
    while i < n
        invariant
            n == items@.len(),
            i <= n,
            out@.len() == i,
            forall|j: int|
                0 <= j < i ==> spec_anon_ref(#[trigger] items@[j]) is Some && out@[j]@
                    == spec_anon_ref(items@[j])->0,
        decreases n - i,
    {
        let x = match decode_anon_ref(&items[i]) {
            Ok(x) => x,
            Err(e) => {
                proof {
                    assert(spec_anon_ref(items@[i as int]) is None);
                    assert(spec_anon_refs(items@) is None);
                }
                return Err(e);
            },
        };
        out.push(x);
        i = i + 1;
    }
    proof {
        assert(spec_anon_refs(items@) matches Some(s) && anon_refs_view(out@) =~= s);
    }
    Ok(out)
}

/// The members of one index page of anonymous references.
pub open spec fn spec_api_page(v: JsonValue) -> Option<AnonPageView> {
    match (
        spec_int_member(v, "count"@),
        spec_opt_str_member(v, "next"@),
        spec_opt_str_member(v, "previous"@),
        spec_arr_member(v, "results"@),
    ) {
        (Some(c), Some(nx), Some(pv), Some(items)) => match spec_anon_refs(items) {
            Some(rs) => Some(AnonPageView { count: c as int, next: nx, previous: pv, results: rs }),
            None => None,
        },
        _ => None,
    }
}

/// Decodes one index page of anonymous references.
pub fn decode_api_page(v: &JsonValue) -> (r: Result<ApiResourceList, Error>)
    ensures
        match spec_api_page(*v) {
            Some(pv) => r matches Ok(p) && p@ == pv,
            None => r matches Err(e) && e is Decode,
        },
{
    let count = match int_member(v, "count") {
        Ok(c) => c,
        Err(e) => {
            return Err(e);
        },
    };
    let next = match opt_str_member(v, "next") {
        Ok(x) => x,
        Err(e) => {
            return Err(e);
        },
    };
    let previous = match opt_str_member(v, "previous") {
        Ok(x) => x,
        Err(e) => {
            return Err(e);
        },
    };
    let results = match member(v, "results") {
        Some(JsonValue::Arr(items)) => match decode_anon_refs(items) {
            Ok(rs) => rs,
            Err(e) => {
                return Err(e);
            },
        },
        _ => {
            return Err(Error::Decode);
        },
    };
    Ok(ApiResourceList { count, next, previous, results })
}

/// Parses `body` and decodes it as one index page of anonymous references.
pub fn api_page_from_body(body: &str) -> (r: Result<ApiResourceList, Error>)
    ensures
        match parsed_json(body@) {
            Some(doc) => match spec_api_page(doc) {
                Some(pv) => r matches Ok(p) && p@ == pv,
                None => r matches Err(e) && e is Decode,
            },
            None => r matches Err(e) && e is Decode,
        },
{
    match parse_json(body) {
        Some(doc) => decode_api_page(&doc),
        None => Err(Error::Decode),
    }
}

/// The members of one machine record. The wire member `move` is a reserved
/// word here, so it decodes onto the record's `move_` field.
pub open spec fn spec_machine(v: JsonValue) -> Option<MachineView> {
    match (
        spec_int_member(v, "id"@),
        spec_ref_member(v, "item"@),
        spec_ref_member(v, "move"@),
        spec_ref_member(v, "version_group"@),
    ) {
        (Some(id), Some(item), Some(taught_move), Some(version_group)) => Some(
            MachineView { id: id as int, item, taught_move, version_group },
        ),
        _ => None,
    }
}

/// Decodes one machine record, aliasing the wire member `move` onto the
/// `move_` field.
pub fn decode_machine(v: &JsonValue) -> (r: Result<Machine, Error>)
    ensures
        match spec_machine(*v) {
            Some(mv) => r matches Ok(m) && m@ == mv,
            None => r matches Err(e) && e is Decode,
        },
{
    let id = match int_member(v, "id") {
        Ok(x) => x,
        Err(e) => {
            return Err(e);
        },
    };
    let item = match ref_member(v, "item") {
        Ok(x) => x,
        Err(e) => {
            return Err(e);
        },
    };
    let move_ = match ref_member(v, "move") {
        Ok(x) => x,
        Err(e) => {
            return Err(e);
        },
    };
    let version_group = match ref_member(v, "version_group") {
        Ok(x) => x,
        Err(e) => {
            return Err(e);
        },
    };
    Ok(Machine { id, item, move_, version_group })
}

/// Parses `body` and decodes it as one machine record.
pub fn machine_from_body(body: &str) -> (r: Result<Machine, Error>)
    ensures
        match parsed_json(body@) {
            Some(doc) => match spec_machine(doc) {
                Some(mv) => r matches Ok(m) && m@ == mv,
                None => r matches Err(e) && e is Decode,
            },
            None => r matches Err(e) && e is Decode,
        },
{
    match parse_json(body) {
        Some(doc) => decode_machine(&doc),
        None => Err(Error::Decode),
    }
}

/// Under the strict policy, a berry document lacking its required `id`
/// member can never decode: the whole decode fails rather than yield a
/// defaulted record. Together with [`decode_berry`]'s contract this pins
/// the failure to exactly [`Error::Decode`].
pub proof fn lemma_strict_decode_rejects_missing_member(v: JsonValue)
    requires
        spec_member(v, "id"@) is None,
    ensures
        spec_berry(v) is None,
        spec_berry_firmness(v) is None,
        spec_berry_flavor(v) is None,
        spec_language(v) is None,
        spec_machine(v) is None,
{
}

/// One flavor potency entry decoded from `v`: `potency` and `flavor`.
pub open spec fn spec_flavor_map(v: JsonValue) -> Option<FlavorMapView> {
    match (spec_int_member(v, "potency"@), spec_ref_member(v, "flavor"@)) {
        (Some(p), Some(f)) => Some(FlavorMapView { potency: p as int, flavor: f }),
        _ => None,
    }
}

/// Decodes one flavor potency entry.
pub fn decode_flavor_map(v: &JsonValue) -> (r: Result<BerryFlavorMap, Error>)
    ensures
        match spec_flavor_map(*v) {
            Some(mv) => r matches Ok(x) && x@ == mv,
            None => r matches Err(e) && e is Decode,
        },
{
    let potency = match int_member(v, "potency") {
        Ok(p) => p,
        Err(e) => {
            return Err(e);
        },
    };
    let flavor = match ref_member(v, "flavor") {
        Ok(f) => f,
        Err(e) => {
            return Err(e);
        },
    };
    Ok(BerryFlavorMap { potency, flavor })
}

/// All elements of `items` decoded as flavor potencies, in order.
pub open spec fn spec_flavor_maps(items: Seq<JsonValue>) -> Option<Seq<FlavorMapView>> {
    if forall|i: int| 0 <= i < items.len() ==> spec_flavor_map(#[trigger] items[i]) is Some {
        Some(Seq::new(items.len(), |i: int| spec_flavor_map(items[i])->0))
    } else {
        None
    }
}

/// Decodes every element of `items` as a flavor potency, keeping the wire
/// order.
pub fn decode_flavor_maps(items: &Vec<JsonValue>) -> (r: Result<Vec<BerryFlavorMap>, Error>)
    ensures
        match spec_flavor_maps(items@) {
            Some(s) => r matches Ok(v) && flavor_maps_view(v@) == s,
            None => r matches Err(e) && e is Decode,
        },
{
    let mut out: Vec<BerryFlavorMap> = Vec::new();
    let n = items.len();
    let mut i: usize = 0;
    while i < n
        invariant
            n == items@.len(),
            i <= n,
            out@.len() == i,
            forall|j: int|
                0 <= j < i ==> spec_flavor_map(#[trigger] items@[j]) is Some && out@[j]@
                    == spec_flavor_map(items@[j])->0,
        decreases n - i,
    {
        let x = match decode_flavor_map(&items[i]) {
            Ok(x) => x,
            Err(e) => {
                proof {
                    assert(spec_flavor_map(items@[i as int]) is None);
                    assert(spec_flavor_maps(items@) is None);
                }
                return Err(e);
            },
        };
        out.push(x);
        i = i + 1;
    }
    proof {
        assert(spec_flavor_maps(items@) matches Some(s) && flavor_maps_view(out@) =~= s);
    }
    Ok(out)
}

/// One berry entry of a flavor decoded from `v`: `potency` and `berry`.
pub open spec fn spec_berry_map(v: JsonValue) -> Option<BerryMapView> {
    match (spec_int_member(v, "potency"@), spec_ref_member(v, "berry"@)) {
        (Some(p), Some(b)) => Some(BerryMapView { potency: p as int, berry: b }),
        _ => None,
    }
}

/// Decodes one berry entry of a flavor.
pub fn decode_berry_map(v: &JsonValue) -> (r: Result<FlavorBerryMap, Error>)
    ensures
        match spec_berry_map(*v) {
            Some(mv) => r matches Ok(x) && x@ == mv,
            None => r matches Err(e) && e is Decode,
        },
{
    let potency = match int_member(v, "potency") {
        Ok(p) => p,
        Err(e) => {
            return Err(e);
        },
    };
    let berry = match ref_member(v, "berry") {
        Ok(b) => b,
        Err(e) => {
            return Err(e);
        },
    };
    Ok(FlavorBerryMap { potency, berry })
}

/// All elements of `items` decoded as berry entries, in order.
pub open spec fn spec_berry_maps(items: Seq<JsonValue>) -> Option<Seq<BerryMapView>> {
    if forall|i: int| 0 <= i < items.len() ==> spec_berry_map(#[trigger] items[i]) is Some {
        Some(Seq::new(items.len(), |i: int| spec_berry_map(items[i])->0))
    } else {
        None
    }
}

/// Decodes every element of `items` as a berry entry, keeping the wire
/// order.
pub fn decode_berry_maps(items: &Vec<JsonValue>) -> (r: Result<Vec<FlavorBerryMap>, Error>)
    ensures
        match spec_berry_maps(items@) {
            Some(s) => r matches Ok(v) && berry_maps_view(v@) == s,
            None => r matches Err(e) && e is Decode,
        },
{
    let mut out: Vec<FlavorBerryMap> = Vec::new();
    let n = items.len();
    let mut i: usize = 0;
    while i < n
        invariant
            n == items@.len(),
            i <= n,
            out@.len() == i,
            forall|j: int|
                0 <= j < i ==> spec_berry_map(#[trigger] items@[j]) is Some && out@[j]@
                    == spec_berry_map(items@[j])->0,
        decreases n - i,
    {
        let x = match decode_berry_map(&items[i]) {
            Ok(x) => x,
            Err(e) => {
                proof {
                    assert(spec_berry_map(items@[i as int]) is None);
                    assert(spec_berry_maps(items@) is None);
                }
                return Err(e);
            },
        };
        out.push(x);
        i = i + 1;
    }
    proof {
        assert(spec_berry_maps(items@) matches Some(s) && berry_maps_view(out@) =~= s);
    }
    Ok(out)
}

/// The members of one berry record.
pub open spec fn spec_berry(v: JsonValue) -> Option<BerryView> {
    match (
        spec_int_member(v, "id"@),
        spec_str_member(v, "name"@),
        spec_int_member(v, "growth_time"@),
        spec_int_member(v, "max_harvest"@),
        spec_int_member(v, "natural_gift_power"@),
        spec_int_member(v, "size"@),
        spec_int_member(v, "smoothness"@),
        spec_int_member(v, "soil_dryness"@),
        spec_ref_member(v, "firmness"@),
        spec_arr_member(v, "flavors"@),
        spec_ref_member(v, "item"@),
        spec_ref_member(v, "natural_gift_type"@),
    ) {
        (
            Some(id),
            Some(name),
            Some(growth_time),
            Some(max_harvest),
            Some(natural_gift_power),
            Some(size),
            Some(smoothness),
            Some(soil_dryness),
            Some(firmness),
            Some(flavor_items),
            Some(item),
            Some(natural_gift_type),
        ) => match spec_flavor_maps(flavor_items) {
            Some(flavors) => Some(
                BerryView {
                    id: id as int,
                    name,
                    growth_time: growth_time as int,
                    max_harvest: max_harvest as int,
                    natural_gift_power: natural_gift_power as int,
                    size: size as int,
                    smoothness: smoothness as int,
                    soil_dryness: soil_dryness as int,
                    firmness,
                    flavors,
                    item,
                    natural_gift_type,
                },
            ),
            None => None,
        },
        _ => None,
    }
}

/// Decodes one berry record.
pub fn decode_berry(v: &JsonValue) -> (r: Result<Berry, Error>)
    ensures
        match spec_berry(*v) {
            Some(bv) => r matches Ok(b) && b@ == bv,
            None => r matches Err(e) && e is Decode,
        },
{
    let id = match int_member(v, "id") {
        Ok(x) => x,
        Err(e) => {
            return Err(e);
        },
    };
    let name = match str_member(v, "name") {
        Ok(x) => x,
        Err(e) => {
            return Err(e);
        },
    };
    let growth_time = match int_member(v, "growth_time") {
        Ok(x) => x,
        Err(e) => {
            return Err(e);
        },
    };
    let max_harvest = match int_member(v, "max_harvest") {
        Ok(x) => x,
        Err(e) => {
            return Err(e);
        },
    };
    let natural_gift_power = match int_member(v, "natural_gift_power") {
        Ok(x) => x,
        Err(e) => {
            return Err(e);
        },
    };
    let size = match int_member(v, "size") {
        Ok(x) => x,
        Err(e) => {
            return Err(e);
        },
    };
    let smoothness = match int_member(v, "smoothness") {
        Ok(x) => x,
        Err(e) => {
            return Err(e);
        },
    };
    let soil_dryness = match int_member(v, "soil_dryness") {
        Ok(x) => x,
        Err(e) => {
            return Err(e);
        },
    };
    let firmness = match ref_member(v, "firmness") {
        Ok(x) => x,
        Err(e) => {
            return Err(e);
        },
    };
    let flavors = match member(v, "flavors") {
        Some(JsonValue::Arr(items)) => match decode_flavor_maps(items) {
            Ok(x) => x,
            Err(e) => {
                return Err(e);
            },
        },
        _ => {
            return Err(Error::Decode);
        },
    };
    let item = match ref_member(v, "item") {
        Ok(x) => x,
        Err(e) => {
            return Err(e);
        },
    };
    let natural_gift_type = match ref_member(v, "natural_gift_type") {
        Ok(x) => x,
        Err(e) => {
            return Err(e);
        },
    };
    Ok(
        Berry {
            id,
            name,
            growth_time,
            max_harvest,
            natural_gift_power,
            size,
            smoothness,
            soil_dryness,
            firmness,
            flavors,
            item,
            natural_gift_type,
        },
    )
}

/// The members of one berry firmness record.
pub open spec fn spec_berry_firmness(v: JsonValue) -> Option<FirmnessView> {
    match (
        spec_int_member(v, "id"@),
        spec_str_member(v, "name"@),
        spec_refs_member(v, "berries"@),
        spec_names_member(v, "names"@),
    ) {
        (Some(id), Some(name), Some(berries), Some(names)) => Some(
            FirmnessView { id: id as int, name, berries, names },
        ),
        _ => None,
    }
}

/// Decodes one berry firmness record.
pub fn decode_berry_firmness(v: &JsonValue) -> (r: Result<BerryFirmness, Error>)
    ensures
        match spec_berry_firmness(*v) {
            Some(fv) => r matches Ok(f) && f@ == fv,
            None => r matches Err(e) && e is Decode,
        },
{
    let id = match int_member(v, "id") {
        Ok(x) => x,
        Err(e) => {
            return Err(e);
        },
    };
    let name = match str_member(v, "name") {
        Ok(x) => x,
        Err(e) => {
            return Err(e);
        },
    };
    let berries = match refs_member(v, "berries") {
        Ok(x) => x,
        Err(e) => {
            return Err(e);
        },
    };
    let names = match names_member(v, "names") {
        Ok(x) => x,
        Err(e) => {
            return Err(e);
        },
    };
    Ok(BerryFirmness { id, name, berries, names })
}

/// The members of one berry flavor record.
pub open spec fn spec_berry_flavor(v: JsonValue) -> Option<BerryFlavorView> {
    match (
        spec_int_member(v, "id"@),
        spec_str_member(v, "name"@),
        spec_arr_member(v, "berries"@),
        spec_ref_member(v, "contest_type"@),
        spec_names_member(v, "names"@),
    ) {
        (Some(id), Some(name), Some(berry_items), Some(contest_type), Some(names)) => match
            spec_berry_maps(berry_items) {
            Some(berries) => Some(
                BerryFlavorView { id: id as int, name, berries, contest_type, names },
            ),
            None => None,
        },
        _ => None,
    }
}

/// Decodes one berry flavor record.
pub fn decode_berry_flavor(v: &JsonValue) -> (r: Result<BerryFlavor, Error>)
    ensures
        match spec_berry_flavor(*v) {
            Some(fv) => r matches Ok(f) && f@ == fv,
            None => r matches Err(e) && e is Decode,
        },
{
    let id = match int_member(v, "id") {
        Ok(x) => x,
        Err(e) => {
            return Err(e);
        },
    };
    let name = match str_member(v, "name") {
        Ok(x) => x,
        Err(e) => {
            return Err(e);
        },
    };
    let berries = match member(v, "berries") {
        Some(JsonValue::Arr(items)) => match decode_berry_maps(items) {
            Ok(x) => x,
            Err(e) => {
                return Err(e);
            },
        },
        _ => {
            return Err(Error::Decode);
        },
    };
    let contest_type = match ref_member(v, "contest_type") {
        Ok(x) => x,
        Err(e) => {
            return Err(e);
        },
    };
    let names = match names_member(v, "names") {
        Ok(x) => x,
        Err(e) => {
            return Err(e);
        },
    };
    Ok(BerryFlavor { id, name, berries, contest_type, names })
}

/// The members of one language record.
pub open spec fn spec_language(v: JsonValue) -> Option<LanguageView> {
    match (
        spec_int_member(v, "id"@),
        spec_str_member(v, "name"@),
        spec_bool_member(v, "official"@),
        spec_str_member(v, "iso639"@),
        spec_str_member(v, "iso3166"@),
        spec_names_member(v, "names"@),
    ) {
        (Some(id), Some(name), Some(official), Some(iso639), Some(iso3166), Some(names)) => Some(
            LanguageView { id: id as int, name, official, iso639, iso3166, names },
        ),
        _ => None,
    }
}

/// Decodes one language record.
pub fn decode_language(v: &JsonValue) -> (r: Result<Language, Error>)
    ensures
        match spec_language(*v) {
            Some(lv) => r matches Ok(l) && l@ == lv,
            None => r matches Err(e) && e is Decode,
        },
{
    let id = match int_member(v, "id") {
        Ok(x) => x,
        Err(e) => {
            return Err(e);
        },
    };
    let name = match str_member(v, "name") {
        Ok(x) => x,
        Err(e) => {
            return Err(e);
        },
    };
    let official = match bool_member(v, "official") {
        Ok(x) => x,
        Err(e) => {
            return Err(e);
        },
    };
    let iso639 = match str_member(v, "iso639") {
        Ok(x) => x,
        Err(e) => {
            return Err(e);
        },
    };
    let iso3166 = match str_member(v, "iso3166") {
        Ok(x) => x,
        Err(e) => {
            return Err(e);
        },
    };
    let names = match names_member(v, "names") {
        Ok(x) => x,
        Err(e) => {
            return Err(e);
        },
    };
    Ok(Language { id, name, official, iso639, iso3166, names })
}

/// Parses `body` and decodes it as one berry record: the full strict path
/// from wire text to a typed record.
pub fn berry_from_body(body: &str) -> (r: Result<Berry, Error>)
    ensures
        match parsed_json(body@) {
            Some(doc) => match spec_berry(doc) {
                Some(bv) => r matches Ok(b) && b@ == bv,
                None => r matches Err(e) && e is Decode,
            },
            None => r matches Err(e) && e is Decode,
        },
{
    match parse_json(body) {
        Some(doc) => decode_berry(&doc),
        None => Err(Error::Decode),
    }
}

/// Parses `body` and decodes it as one berry firmness record.
pub fn berry_firmness_from_body(body: &str) -> (r: Result<BerryFirmness, Error>)
    ensures
        match parsed_json(body@) {
            Some(doc) => match spec_berry_firmness(doc) {
                Some(fv) => r matches Ok(f) && f@ == fv,
                None => r matches Err(e) && e is Decode,
            },
            None => r matches Err(e) && e is Decode,
        },
{
    match parse_json(body) {
        Some(doc) => decode_berry_firmness(&doc),
        None => Err(Error::Decode),
    }
}

/// Parses `body` and decodes it as one berry flavor record.
pub fn berry_flavor_from_body(body: &str) -> (r: Result<BerryFlavor, Error>)
    ensures
        match parsed_json(body@) {
            Some(doc) => match spec_berry_flavor(doc) {
                Some(fv) => r matches Ok(f) && f@ == fv,
                None => r matches Err(e) && e is Decode,
            },
            None => r matches Err(e) && e is Decode,
        },
{
    match parse_json(body) {
        Some(doc) => decode_berry_flavor(&doc),
        None => Err(Error::Decode),
    }
}

/// The optional named-reference member `key` of `v`: an absent member and
/// a `null` both decode to nothing, and only a member that is neither a
/// reference nor `null` is a failure (the outer `None`).
pub open spec fn spec_opt_ref_member(v: JsonValue, key: Seq<char>) -> Option<Option<RefView>> {
    match spec_member(v, key) {
        None => Some(None),
        Some(JsonValue::Null) => Some(None),
        Some(m) => match spec_ref(m) {
            Some(rv) => Some(Some(rv)),
            None => None,
        },
    }
}

/// Reads the optional named-reference member `key` of `v`; absent or
/// `null` is nothing.
pub fn opt_ref_member(v: &JsonValue, key: &str) -> (r: Result<Option<NamedApiResource>, Error>)
    ensures
        match spec_opt_ref_member(*v, key@) {
            Some(Some(rv)) => r matches Ok(x) && (x matches Some(y) && y@ == rv),
            Some(None) => r matches Ok(x) && x is None,
            None => r matches Err(e) && e is Decode,
        },
{
    match member(v, key) {
        None => Ok(None),
        Some(JsonValue::Null) => Ok(None),
        Some(m) => match decode_ref(m) {
            Ok(x) => Ok(Some(x)),
            Err(e) => Err(e),
        },
    }
}

/// One localized description decoded from `v`: the `description` string
/// and the `language` reference.
pub open spec fn spec_description(v: JsonValue) -> Option<DescriptionView> {
    match (spec_str_member(v, "description"@), spec_ref_member(v, "language"@)) {
        (Some(d), Some(l)) => Some(DescriptionView { description: d, language: l }),
        _ => None,
    }
}

/// Decodes one localized description.
pub fn decode_description(v: &JsonValue) -> (r: Result<Description, Error>)
    ensures
        match spec_description(*v) {
            Some(dv) => r matches Ok(x) && x@ == dv,
            None => r matches Err(e) && e is Decode,
        },
{
    let description = match str_member(v, "description") {
        Ok(s) => s,
        Err(e) => {
            return Err(e);
        },
    };
    let language = match ref_member(v, "language") {
        Ok(l) => l,
        Err(e) => {
            return Err(e);
        },
    };
    Ok(Description { description, language })
}

/// All elements of `items` decoded as localized descriptions, in order.
pub open spec fn spec_descriptions(items: Seq<JsonValue>) -> Option<Seq<DescriptionView>> {
    if forall|i: int| 0 <= i < items.len() ==> spec_description(#[trigger] items[i]) is Some {
        Some(Seq::new(items.len(), |i: int| spec_description(items[i])->0))
    } else {
        None
    }
}

/// Decodes every element of `items` as a localized description, keeping
/// the wire order.
pub fn decode_descriptions(items: &Vec<JsonValue>) -> (r: Result<Vec<Description>, Error>)
    ensures
        match spec_descriptions(items@) {
            Some(s) => r matches Ok(v) && descriptions_view(v@) == s,
            None => r matches Err(e) && e is Decode,
        },
{
    let mut out: Vec<Description> = Vec::new();
    let n = items.len();
    let mut i: usize = 0;
    while i < n
        invariant
            n == items@.len(),
            i <= n,
            out@.len() == i,
            forall|j: int|
                0 <= j < i ==> spec_description(#[trigger] items@[j]) is Some && out@[j]@
                    == spec_description(items@[j])->0,
        decreases n - i,
    {
        let x = match decode_description(&items[i]) {
            Ok(x) => x,
            Err(e) => {
                proof {
                    assert(spec_description(items@[i as int]) is None);
                    assert(spec_descriptions(items@) is None);
                }
                return Err(e);
            },
        };
        out.push(x);
        i = i + 1;
    }
    proof {
        assert(spec_descriptions(items@) matches Some(s) && descriptions_view(out@) =~= s);
    }
    Ok(out)
}

/// The required array member `key` of `v`, each element decoded as a
/// localized description.
pub open spec fn spec_descriptions_member(v: JsonValue, key: Seq<char>) -> Option<
    Seq<DescriptionView>,
> {
    match spec_arr_member(v, key) {
        Some(items) => spec_descriptions(items),
        None => None,
    }
}

/// Reads the required array member `key` of `v` and decodes every element
/// as a localized description.
pub fn descriptions_member(v: &JsonValue, key: &str) -> (r: Result<Vec<Description>, Error>)
    ensures
        match spec_descriptions_member(*v, key@) {
            Some(s) => r matches Ok(x) && descriptions_view(x@) == s,
            None => r matches Err(e) && e is Decode,
        },
{
    match member(v, key) {
        Some(JsonValue::Arr(items)) => decode_descriptions(items),
        _ => Err(Error::Decode),
    }
}

/// One Pokédex entry decoded from `v`: `entry_number` and
/// `pokemon_species`.
pub open spec fn spec_entry(v: JsonValue) -> Option<EntryView> {
    match (spec_int_member(v, "entry_number"@), spec_ref_member(v, "pokemon_species"@)) {
        (Some(n), Some(s)) => Some(EntryView { entry_number: n as int, pokemon_species: s }),
        _ => None,
    }
}

/// Decodes one Pokédex entry.
pub fn decode_entry(v: &JsonValue) -> (r: Result<PokemonEntry, Error>)
    ensures
        match spec_entry(*v) {
            Some(ev) => r matches Ok(x) && x@ == ev,
            None => r matches Err(e) && e is Decode,
        },
{
    let entry_number = match int_member(v, "entry_number") {
        Ok(n) => n,
        Err(e) => {
            return Err(e);
        },
    };
    let pokemon_species = match ref_member(v, "pokemon_species") {
        Ok(s) => s,
        Err(e) => {
            return Err(e);
        },
    };
    Ok(PokemonEntry { entry_number, pokemon_species })
}

/// All elements of `items` decoded as Pokédex entries, in order.
pub open spec fn spec_entries(items: Seq<JsonValue>) -> Option<Seq<EntryView>> {
    if forall|i: int| 0 <= i < items.len() ==> spec_entry(#[trigger] items[i]) is Some {
        Some(Seq::new(items.len(), |i: int| spec_entry(items[i])->0))
    } else {
        None
    }
}

/// Decodes every element of `items` as a Pokédex entry, keeping the wire
/// order.
pub fn decode_entries(items: &Vec<JsonValue>) -> (r: Result<Vec<PokemonEntry>, Error>)
    ensures
        match spec_entries(items@) {
            Some(s) => r matches Ok(v) && entries_view(v@) == s,
            None => r matches Err(e) && e is Decode,
        },
{
    let mut out: Vec<PokemonEntry> = Vec::new();
    let n = items.len();
    let mut i: usize = 0;
    while i < n
        invariant
            n == items@.len(),
            i <= n,
            out@.len() == i,
            forall|j: int|
                0 <= j < i ==> spec_entry(#[trigger] items@[j]) is Some && out@[j]@ == spec_entry(
                    items@[j],
                )->0,
        decreases n - i,
    {
        let x = match decode_entry(&items[i]) {
            Ok(x) => x,
            Err(e) => {
                proof {
                    assert(spec_entry(items@[i as int]) is None);
                    assert(spec_entries(items@) is None);
                }
                return Err(e);
            },
        };
        out.push(x);
        i = i + 1;
    }
    proof {
        assert(spec_entries(items@) matches Some(s) && entries_view(out@) =~= s);
    }
    Ok(out)
}

/// The members of one version record.
pub open spec fn spec_version(v: JsonValue) -> Option<VersionView> {
    match (
        spec_int_member(v, "id"@),
        spec_str_member(v, "name"@),
        spec_names_member(v, "names"@),
        spec_ref_member(v, "version_group"@),
    ) {
        (Some(id), Some(name), Some(names), Some(version_group)) => Some(
            VersionView { id: id as int, name, names, version_group },
        ),
        _ => None,
    }
}

/// Decodes one version record.
pub fn decode_version(v: &JsonValue) -> (r: Result<Version, Error>)
    ensures
        match spec_version(*v) {
            Some(vv) => r matches Ok(x) && x@ == vv,
            None => r matches Err(e) && e is Decode,
        },
{
    let id = match int_member(v, "id") {
        Ok(x) => x,
        Err(e) => {
            return Err(e);
        },
    };
    let name = match str_member(v, "name") {
        Ok(x) => x,
        Err(e) => {
            return Err(e);
        },
    };
    let names = match names_member(v, "names") {
        Ok(x) => x,
        Err(e) => {
            return Err(e);
        },
    };
    let version_group = match ref_member(v, "version_group") {
        Ok(x) => x,
        Err(e) => {
            return Err(e);
        },
    };
    Ok(Version { id, name, names, version_group })
}

/// The members of one version group record.
pub open spec fn spec_version_group(v: JsonValue) -> Option<VersionGroupView> {
    match (
        spec_int_member(v, "id"@),
        spec_str_member(v, "name"@),
        spec_int_member(v, "order"@),
        spec_ref_member(v, "generation"@),
        spec_refs_member(v, "move_learn_methods"@),
        spec_refs_member(v, "pokedexes"@),
        spec_refs_member(v, "regions"@),
        spec_refs_member(v, "versions"@),
    ) {
        (
            Some(id),
            Some(name),
            Some(order),
            Some(generation),
            Some(move_learn_methods),
            Some(pokedexes),
            Some(regions),
            Some(versions),
        ) => Some(
            VersionGroupView {
                id: id as int,
                name,
                order: order as int,
                generation,
                move_learn_methods,
                pokedexes,
                regions,
                versions,
            },
        ),
        _ => None,
    }
}

/// Decodes one version group record.
pub fn decode_version_group(v: &JsonValue) -> (r: Result<VersionGroup, Error>)
    ensures
        match spec_version_group(*v) {
            Some(gv) => r matches Ok(x) && x@ == gv,
            None => r matches Err(e) && e is Decode,
        },
{
    let id = match int_member(v, "id") {
        Ok(x) => x,
        Err(e) => {
            return Err(e);
        },
    };
    let name = match str_member(v, "name") {
        Ok(x) => x,
        Err(e) => {
            return Err(e);
        },
    };
    let order = match int_member(v, "order") {
        Ok(x) => x,
        Err(e) => {
            return Err(e);
        },
    };
    let generation = match ref_member(v, "generation") {
        Ok(x) => x,
        Err(e) => {
            return Err(e);
        },
    };
    let move_learn_methods = match refs_member(v, "move_learn_methods") {
        Ok(x) => x,
        Err(e) => {
            return Err(e);
        },
    };
    let pokedexes = match refs_member(v, "pokedexes") {
        Ok(x) => x,
        Err(e) => {
            return Err(e);
        },
    };
    let regions = match refs_member(v, "regions") {
        Ok(x) => x,
        Err(e) => {
            return Err(e);
        },
    };
    let versions = match refs_member(v, "versions") {
        Ok(x) => x,
        Err(e) => {
            return Err(e);
        },
    };
    Ok(VersionGroup { id, name, order, generation, move_learn_methods, pokedexes, regions, versions })
}

/// The members of one generation record.
pub open spec fn spec_generation(v: JsonValue) -> Option<GenerationView> {
    match (
        spec_int_member(v, "id"@),
        spec_str_member(v, "name"@),
        spec_refs_member(v, "abilities"@),
        spec_names_member(v, "names"@),
        spec_ref_member(v, "main_region"@),
        spec_refs_member(v, "moves"@),
        spec_refs_member(v, "pokemon_species"@),
        spec_refs_member(v, "types"@),
        spec_refs_member(v, "version_groups"@),
    ) {
        (
            Some(id),
            Some(name),
            Some(abilities),
            Some(names),
            Some(main_region),
            Some(moves),
            Some(pokemon_species),
            Some(types),
            Some(version_groups),
        ) => Some(
            GenerationView {
                id: id as int,
                name,
                abilities,
                names,
                main_region,
                moves,
                pokemon_species,
                types,
                version_groups,
            },
        ),
        _ => None,
    }
}

/// Decodes one generation record.
pub fn decode_generation(v: &JsonValue) -> (r: Result<Generation, Error>)
    ensures
        match spec_generation(*v) {
            Some(gv) => r matches Ok(x) && x@ == gv,
            None => r matches Err(e) && e is Decode,
        },
{
    let id = match int_member(v, "id") {
        Ok(x) => x,
        Err(e) => {
            return Err(e);
        },
    };
    let name = match str_member(v, "name") {
        Ok(x) => x,
        Err(e) => {
            return Err(e);
        },
    };
    let abilities = match refs_member(v, "abilities") {
        Ok(x) => x,
        Err(e) => {
            return Err(e);
        },
    };
    let names = match names_member(v, "names") {
        Ok(x) => x,
        Err(e) => {
            return Err(e);
        },
    };
    let main_region = match ref_member(v, "main_region") {
        Ok(x) => x,
        Err(e) => {
            return Err(e);
        },
    };
    let moves = match refs_member(v, "moves") {
        Ok(x) => x,
        Err(e) => {
            return Err(e);
        },
    };
    let pokemon_species = match refs_member(v, "pokemon_species") {
        Ok(x) => x,
        Err(e) => {
            return Err(e);
        },
    };
    let types = match refs_member(v, "types") {
        Ok(x) => x,
        Err(e) => {
            return Err(e);
        },
    };
    let version_groups = match refs_member(v, "version_groups") {
        Ok(x) => x,
        Err(e) => {
            return Err(e);
        },
    };
    Ok(
        Generation {
            id,
            name,
            abilities,
            names,
            main_region,
            moves,
            pokemon_species,
            types,
            version_groups,
        },
    )
}

/// The members of one Pokédex record.
pub open spec fn spec_pokedex(v: JsonValue) -> Option<PokedexView> {
    match (
        spec_int_member(v, "id"@),
        spec_str_member(v, "name"@),
        spec_bool_member(v, "is_main_series"@),
        spec_descriptions_member(v, "descriptions"@),
        spec_names_member(v, "names"@),
        spec_arr_member(v, "pokemon_entries"@),
        spec_opt_ref_member(v, "region"@),
        spec_refs_member(v, "version_groups"@),
    ) {
        (
            Some(id),
            Some(name),
            Some(is_main_series),
            Some(descriptions),
            Some(names),
            Some(entry_items),
            Some(region),
            Some(version_groups),
        ) => match spec_entries(entry_items) {
            Some(pokemon_entries) => Some(
                PokedexView {
                    id: id as int,
                    name,
                    is_main_series,
                    descriptions,
                    names,
                    pokemon_entries,
                    region,
                    version_groups,
                },
            ),
            None => None,
        },
        _ => None,
    }
}

/// Decodes one Pokédex record.
pub fn decode_pokedex(v: &JsonValue) -> (r: Result<Pokedex, Error>)
    ensures
        match spec_pokedex(*v) {
            Some(pv) => r matches Ok(x) && x@ == pv,
            None => r matches Err(e) && e is Decode,
        },
{
    let id = match int_member(v, "id") {
        Ok(x) => x,
        Err(e) => {
            return Err(e);
        },
    };
    let name = match str_member(v, "name") {
        Ok(x) => x,
        Err(e) => {
            return Err(e);
        },
    };
    let is_main_series = match bool_member(v, "is_main_series") {
        Ok(x) => x,
        Err(e) => {
            return Err(e);
        },
    };
    let descriptions = match descriptions_member(v, "descriptions") {
        Ok(x) => x,
        Err(e) => {
            return Err(e);
        },
    };
    let names = match names_member(v, "names") {
        Ok(x) => x,
        Err(e) => {
            return Err(e);
        },
    };
    let pokemon_entries = match member(v, "pokemon_entries") {
        Some(JsonValue::Arr(items)) => match decode_entries(items) {
            Ok(x) => x,
            Err(e) => {
                return Err(e);
            },
        },
        _ => {
            return Err(Error::Decode);
        },
    };
    let region = match opt_ref_member(v, "region") {
        Ok(x) => x,
        Err(e) => {
            return Err(e);
        },
    };
    let version_groups = match refs_member(v, "version_groups") {
        Ok(x) => x,
        Err(e) => {
            return Err(e);
        },
    };
    Ok(
        Pokedex {
            id,
            name,
            is_main_series,
            descriptions,
            names,
            pokemon_entries,
            region,
            version_groups,
        },
    )
}

/// Parses `body` and decodes it as one version record.
pub fn version_from_body(body: &str) -> (r: Result<Version, Error>)
    ensures
        match parsed_json(body@) {
            Some(doc) => match spec_version(doc) {
                Some(vv) => r matches Ok(x) && x@ == vv,
                None => r matches Err(e) && e is Decode,
            },
            None => r matches Err(e) && e is Decode,
        },
{
    match parse_json(body) {
        Some(doc) => decode_version(&doc),
        None => Err(Error::Decode),
    }
}

/// Parses `body` and decodes it as one version group record.
pub fn version_group_from_body(body: &str) -> (r: Result<VersionGroup, Error>)
    ensures
        match parsed_json(body@) {
            Some(doc) => match spec_version_group(doc) {
                Some(gv) => r matches Ok(x) && x@ == gv,
                None => r matches Err(e) && e is Decode,
            },
            None => r matches Err(e) && e is Decode,
        },
{
    match parse_json(body) {
        Some(doc) => decode_version_group(&doc),
        None => Err(Error::Decode),
    }
}

/// Parses `body` and decodes it as one generation record.
pub fn generation_from_body(body: &str) -> (r: Result<Generation, Error>)
    ensures
        match parsed_json(body@) {
            Some(doc) => match spec_generation(doc) {
                Some(gv) => r matches Ok(x) && x@ == gv,
                None => r matches Err(e) && e is Decode,
            },
            None => r matches Err(e) && e is Decode,
        },
{
    match parse_json(body) {
        Some(doc) => decode_generation(&doc),
        None => Err(Error::Decode),
    }
}

/// Parses `body` and decodes it as one Pokédex record.
pub fn pokedex_from_body(body: &str) -> (r: Result<Pokedex, Error>)
    ensures
        match parsed_json(body@) {
            Some(doc) => match spec_pokedex(doc) {
                Some(pv) => r matches Ok(x) && x@ == pv,
                None => r matches Err(e) && e is Decode,
            },
            None => r matches Err(e) && e is Decode,
        },
{
    match parse_json(body) {
        Some(doc) => decode_pokedex(&doc),
        None => Err(Error::Decode),
    }
}

/// Parses `body` and decodes it as one language record.
pub fn language_from_body(body: &str) -> (r: Result<Language, Error>)
    ensures
        match parsed_json(body@) {
            Some(doc) => match spec_language(doc) {
                Some(lv) => r matches Ok(l) && l@ == lv,
                None => r matches Err(e) && e is Decode,
            },
            None => r matches Err(e) && e is Decode,
        },
{
    match parse_json(body) {
        Some(doc) => decode_language(&doc),
        None => Err(Error::Decode),
    }
}

} // verus!
