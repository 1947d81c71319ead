//! Trusted interface to the layered-configuration framework.
//!
//! The provider hands its output to the framework's merge pipeline in the
//! framework's own types: a profile tag, a dictionary of named values, and
//! a profile-keyed map of dictionaries. The items here declare those types
//! and state, for each call the provider makes into the framework, what the
//! framework's source shows the call does.

use vstd::prelude::*;

verus! {

#[verifier::external_type_specification]
#[verifier::external_body]
pub struct ExProfile(figment2::Profile);

#[verifier::external_type_specification]
#[verifier::external_body]
pub struct ExValue(figment2::value::Value);

#[verifier::external_type_specification]
#[verifier::external_body]
pub struct ExMetadata(figment2::Metadata);

#[verifier::external_type_specification]
#[verifier::external_body]
pub struct ExError(figment2::Error);

/// The name a profile tag was constructed from.
pub uninterp spec fn profile_view(p: figment2::Profile) -> Seq<char>;

/// The string entries a value dictionary holds, keyed by entry name.
pub uninterp spec fn dict_view(d: figment2::value::Dict) -> Map<Seq<char>, Seq<char>>;

/// The entries a profile-keyed map of dictionaries holds.
pub uninterp spec fn profile_map_view(
    m: std::collections::BTreeMap<figment2::Profile, figment2::value::Dict>,
) -> Map<Seq<char>, Map<Seq<char>, Seq<char>>>;

/// The identifying name a metadata record carries.
pub uninterp spec fn metadata_name(m: figment2::Metadata) -> Seq<char>;

/// A dictionary view with no entries.
pub open spec fn empty_dict_view() -> Map<Seq<char>, Seq<char>> {
    Map::empty()
}

/// A profile-keyed map view with no entries.
pub open spec fn empty_profile_map_view() -> Map<Seq<char>, Map<Seq<char>, Seq<char>>> {
    Map::empty()
}

/// Relies on `figment2::Profile::Default`: the framework's default profile,
/// whose name is `"default"`.
#[verifier::external_body]
pub(crate) fn profile_default() -> (p: figment2::Profile)
    ensures
        profile_view(p) == "default"@,
{
    figment2::Profile::Default
}

/// Relies on `figment2::Profile::new`: a profile tag carrying exactly the
/// given name.
#[verifier::external_body]
pub(crate) fn profile_new(name: &str) -> (p: figment2::Profile)
    ensures
        profile_view(p) == name@,
{
    figment2::Profile::new(name)
}

/// Relies on `figment2::Metadata::named`: a metadata record whose name is
/// exactly the given string.
#[verifier::external_body]
pub(crate) fn metadata_named(name: String) -> (m: figment2::Metadata)
    ensures
        metadata_name(m) == name@,
{
    figment2::Metadata::named(name)
}

/// Relies on `BTreeMap::new`: a dictionary with no entries.
#[verifier::external_body]
pub(crate) fn dict_new() -> (d: figment2::value::Dict)
    ensures
        dict_view(d) == empty_dict_view(),
{
    figment2::value::Dict::new()
}

/// Relies on `BTreeMap::insert`: recording a string value (converted to the
/// framework's value type by `figment2::value::Value::from`) under an entry
/// name replaces any entry with that name and leaves the rest unchanged.
#[verifier::external_body]
pub(crate) fn dict_insert_str(d: &mut figment2::value::Dict, k: String, v: String)
    ensures
        dict_view(*final(d)) == dict_view(*old(d)).insert(k@, v@),
{
    d.insert(k, figment2::value::Value::from(v));
}

/// Relies on `figment2::Profile::collect`: a fresh map holding the given
/// dictionary under this profile tag, and nothing else.
#[verifier::external_body]
pub(crate) fn profile_collect(p: &figment2::Profile, d: figment2::value::Dict) -> (m:
    std::collections::BTreeMap<figment2::Profile, figment2::value::Dict>)
    ensures
        profile_map_view(m) == empty_profile_map_view().insert(profile_view(*p), dict_view(d)),
{
    p.collect(d)
}

} // verus!
