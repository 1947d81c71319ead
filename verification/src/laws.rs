//! Proved properties of the provider's lookup and assembly behaviour.

use vstd::prelude::*;
use crate::names::binding_of;
use crate::provider::{collected, lookup2, CloudflareWorkersBindings};

verus! {

/// Tier precedence is fixed: a binding present among the plain variables
/// resolves there even when a secret of the same name exists; the secret
/// tier is consulted only as a fallback; a binding in neither tier does
/// not resolve.
pub proof fn lemma_tier_precedence(
    vars: Map<Seq<char>, Seq<char>>,
    secrets: Map<Seq<char>, Seq<char>>,
    binding: Seq<char>,
)
    ensures
        vars.contains_key(binding) ==> lookup2(vars, secrets, binding) == Some(vars[binding]),
        !vars.contains_key(binding) && secrets.contains_key(binding) ==> lookup2(
            vars,
            secrets,
            binding,
        ) == Some(secrets[binding]),
        !vars.contains_key(binding) && !secrets.contains_key(binding) ==> lookup2(
            vars,
            secrets,
            binding,
        ) is None,
{
}

/// What the assembled dictionary holds of any key: an entry exists exactly
/// when the key is one of the stored field names and its derived binding
/// resolves in some tier, and the entry's value is then what the two-tier
/// lookup yields. In particular every entry's key is a stored field name,
/// a field whose binding resolves nowhere has no entry, and a resolved
/// value is recorded unmodified.
pub proof fn lemma_collected_characterised(
    fields: Seq<Seq<char>>,
    vars: Map<Seq<char>, Seq<char>>,
    secrets: Map<Seq<char>, Seq<char>>,
    k: Seq<char>,
)
    ensures
        collected(fields, vars, secrets).contains_key(k) <==> ((exists|j: int|
            0 <= j < fields.len() && fields[j] == k) && lookup2(vars, secrets, binding_of(k))
            is Some),
        collected(fields, vars, secrets).contains_key(k) ==> lookup2(vars, secrets, binding_of(k))
            == Some(collected(fields, vars, secrets)[k]),
    decreases fields.len(),
{
    if fields.len() == 0 {
    } else {
        let prefix = fields.drop_last();
        let last = fields.last();
        lemma_collected_characterised(prefix, vars, secrets, k);
        if collected(fields, vars, secrets).contains_key(k) {
            if last == k {
                assert(fields[fields.len() - 1] == k);
            } else {
                assert(collected(prefix, vars, secrets).contains_key(k));
                let j = choose|j: int| 0 <= j < prefix.len() && prefix[j] == k;
                assert(fields[j] == k);
            }
        }
        if (exists|j: int| 0 <= j < fields.len() && fields[j] == k) && lookup2(
            vars,
            secrets,
            binding_of(k),
        ) is Some {
            let j = choose|j: int| 0 <= j < fields.len() && fields[j] == k;
            if last != k {
                assert(j < prefix.len() && prefix[j] == k);
            }
        }
    }
}

/// The provider consults only the derived binding names: two stores that
/// agree on the binding derived from every stored field assemble the same
/// dictionary, whatever else they hold.
pub proof fn lemma_only_derived_bindings_consulted(
    fields: Seq<Seq<char>>,
    vars1: Map<Seq<char>, Seq<char>>,
    secrets1: Map<Seq<char>, Seq<char>>,
    vars2: Map<Seq<char>, Seq<char>>,
    secrets2: Map<Seq<char>, Seq<char>>,
)
    requires
        forall|i: int|
            0 <= i < fields.len() ==> lookup2(vars1, secrets1, binding_of(#[trigger] fields[i]))
                == lookup2(vars2, secrets2, binding_of(fields[i])),
    ensures
        collected(fields, vars1, secrets1) == collected(fields, vars2, secrets2),
    decreases fields.len(),
{
    if fields.len() == 0 {
        assert(collected(fields, vars1, secrets1) =~= collected(fields, vars2, secrets2));
    } else {
        let prefix = fields.drop_last();
        assert(forall|i: int| 0 <= i < prefix.len() ==> #[trigger] prefix[i] == fields[i]);
        lemma_only_derived_bindings_consulted(prefix, vars1, secrets1, vars2, secrets2);
        assert(fields[fields.len() - 1] == fields.last());
        assert(lookup2(vars1, secrets1, binding_of(fields.last())) == lookup2(
            vars2,
            secrets2,
            binding_of(fields.last()),
        ));
    }
}

/// A shape with no fields yields an empty dictionary, whatever the store
/// holds — and, by the data operation's contract, doing so is not an
/// error.
pub proof fn lemma_no_fields_no_entries(
    vars: Map<Seq<char>, Seq<char>>,
    secrets: Map<Seq<char>, Seq<char>>,
)
    ensures
        collected(Seq::empty(), vars, secrets) == Map::<Seq<char>, Seq<char>>::empty(),
{
}

/// The profile tag decides only where the output is filed, never what it
/// holds: a provider whose profile was replaced, with its field list and
/// store kept, assembles exactly the dictionary it assembled before; only
/// the key the dictionary is filed under changes.
pub proof fn lemma_profile_places_only(
    before: CloudflareWorkersBindings,
    after: CloudflareWorkersBindings,
)
    requires
        after.spec_fields() == before.spec_fields(),
        after.spec_env() == before.spec_env(),
    ensures
        collected(
            after.spec_fields(),
            after.spec_env().vars_map(),
            after.spec_env().secrets_map(),
        ) == collected(
            before.spec_fields(),
            before.spec_env().vars_map(),
            before.spec_env().secrets_map(),
        ),
{
}

} // verus!
