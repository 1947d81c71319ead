//! The environment binding provider.
//!
//! Given a target configuration shape's field names and an environment
//! store, the provider derives a binding name for each field by
//! upper-casing it, resolves the binding against the store (plain
//! variables first, then secrets), and files the values it found under a
//! configuration profile, as one layer for a configuration-merging
//! pipeline.

use vstd::prelude::*;
use vstd::string::StringExecFns;
use vstd::utf8::is_ascii_chars;
use crate::env::Env;
use crate::names::{binding_name, binding_of};
use crate::figment_api::{
    dict_insert_str, dict_new, empty_profile_map_view, metadata_name, metadata_named,
    profile_collect, profile_default, profile_map_view, profile_new, profile_view,
};

verus! {

/// What the two-tier lookup yields for a binding name: the plain-variable
/// tier wins; the secret tier is the fallback; absence in both tiers is
/// absence, not an error.
pub open spec fn lookup2(
    vars: Map<Seq<char>, Seq<char>>,
    secrets: Map<Seq<char>, Seq<char>>,
    binding: Seq<char>,
) -> Option<Seq<char>> {
    if vars.contains_key(binding) {
        Some(vars[binding])
    } else if secrets.contains_key(binding) {
        Some(secrets[binding])
    } else {
        None
    }
}

/// The dictionary the provider assembles for `fields`: one entry per field
/// whose derived binding name resolves, keyed by the original
/// (non-upper-cased) field name; fields that resolve in neither tier have
/// no entry.
pub open spec fn collected(
    fields: Seq<Seq<char>>,
    vars: Map<Seq<char>, Seq<char>>,
    secrets: Map<Seq<char>, Seq<char>>,
) -> Map<Seq<char>, Seq<char>>
    decreases fields.len(),
{
    if fields.len() == 0 {
        Map::empty()
    } else {
        let rest = collected(fields.drop_last(), vars, secrets);
        match lookup2(vars, secrets, binding_of(fields.last())) {
            Some(v) => rest.insert(fields.last(), v),
            None => rest,
        }
    }
}

/// The views of a list of field names.
pub open spec fn field_views(fields: Seq<String>) -> Seq<Seq<char>> {
    fields.map(|i: int, f: String| f@)
}

/// A configuration provider that reads the fields of a target shape from a
/// worker environment store.
///
/// The stored field list is fixed at construction; the profile tag decides
/// only under which key the assembled dictionary is filed.
pub struct CloudflareWorkersBindings<'a> {
    env: &'a Env,
    fields: Vec<String>,
    profile: figment2::Profile,
}

impl<'a> CloudflareWorkersBindings<'a> {
    /// The environment store this provider reads from.
    pub closed spec fn spec_env(&self) -> Env {
        *self.env
    }

    /// The stored field names, in order.
    pub closed spec fn spec_fields(&self) -> Seq<Seq<char>> {
        field_views(self.fields@)
    }

    /// The name of the profile the output is filed under.
    pub closed spec fn spec_profile(&self) -> Seq<char> {
        profile_view(self.profile)
    }

    /// Well-formed: every stored field name is ASCII, as declared field
    /// identifiers are.
    pub open spec fn wf(&self) -> bool {
        forall|i: int|
            0 <= i < self.spec_fields().len() ==> is_ascii_chars(#[trigger] self.spec_fields()[i])
    }

    /// Create a provider over `env` for a shape declaring `fields`, in
    /// declaration order and with duplicates preserved as given. The store
    /// is not consulted; the profile starts out as the default profile.
    pub fn from_struct(env: &'a Env, fields: Vec<String>) -> (r: Self)
        requires
            forall|i: int| 0 <= i < fields@.len() ==> is_ascii_chars((#[trigger] fields@[i])@),
        ensures
            r.wf(),
            r.spec_env() == *env,
            r.spec_fields() == field_views(fields@),
            r.spec_profile() == "default"@,
    {
        CloudflareWorkersBindings { env, fields, profile: profile_default() }
    }

    /// Replace the profile tag the output is filed under; the field list,
    /// the store, and the lookup behaviour are unaffected.
    pub fn profile(self, profile: &str) -> (r: Self)
        ensures
            r.spec_env() == self.spec_env(),
            r.spec_fields() == self.spec_fields(),
            r.spec_profile() == profile@,
    {
        CloudflareWorkersBindings {
            env: self.env,
            fields: self.fields,
            profile: profile_new(profile),
        }
    }

    /// The provider's identifying metadata, a constant human-readable name
    /// used by the merge pipeline for diagnostics only.
    pub fn metadata(&self) -> (m: figment2::Metadata)
        ensures
            metadata_name(m) == "Cloudflare Worker environment"@,
    {
        metadata_named(String::from_str("Cloudflare Worker environment"))
    }

    /// Assemble the provider's data, fresh from the store's current state:
    /// for each stored field in order, derive the binding name by
    /// upper-casing the field, try the plain-variable tier, fall back to
    /// the secret tier, and record a resolved value under the original
    /// field name; fields that resolve nowhere are skipped silently. The
    /// result is filed under the provider's profile, and the operation
    /// never fails.
    pub fn data(&self) -> (r: Result<
        std::collections::BTreeMap<figment2::Profile, figment2::value::Dict>,
        figment2::Error,
    >)
        requires
            self.wf(),
        ensures
            r is Ok,
            profile_map_view(r->Ok_0) == empty_profile_map_view().insert(
                self.spec_profile(),
                collected(
                    self.spec_fields(),
                    self.spec_env().vars_map(),
                    self.spec_env().secrets_map(),
                ),
            ),
    {
        let ghost vars = self.spec_env().vars_map();
        let ghost secrets = self.spec_env().secrets_map();
        let mut dict = dict_new();
        let n: usize = self.fields.len();
        let mut i: usize = 0;
        while i < n
            invariant
                self.wf(),
                n == self.fields@.len(),
                i <= n,
                vars == self.spec_env().vars_map(),
                secrets == self.spec_env().secrets_map(),
                crate::figment_api::dict_view(dict) == collected(
                    self.spec_fields().take(i as int),
                    vars,
                    secrets,
                ),
            decreases n - i,
        {
            let field = &self.fields[i];
            proof {
                assert(self.spec_fields()[i as int] == self.fields@[i as int]@);
                assert(is_ascii_chars(self.fields@[i as int]@));
            }
            let binding = binding_name(field.as_str());
            let value = match self.env.var(binding.as_str()) {
                Some(v) => Some(v),
                None => self.env.secret(binding.as_str()),
            };
            proof {
                assert(self.spec_fields().take(i + 1).drop_last() =~= self.spec_fields().take(
                    i as int,
                ));
                assert(self.spec_fields().take(i + 1).last() == self.spec_fields()[i as int]);
            }
            match value {
                Some(v) => {
                    dict_insert_str(&mut dict, field.clone(), v);
                },
                None => {},
            }
            i = i + 1;
        }
        proof {
            assert(self.spec_fields().take(n as int) =~= self.spec_fields());
        }
        Ok(profile_collect(&self.profile, dict))
    }
}

} // verus!
