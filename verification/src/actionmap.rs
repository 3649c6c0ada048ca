use vstd::prelude::*;

verus! {

use core::hash::BuildHasher;
use std::collections::BTreeMap;
use std::collections::HashMap;

/// An enum representing an action to be taken by a
/// [`CharMapper`](crate::CharMapper) when it sees a certain [`char`].
#[derive(Clone, Copy, Debug)]
pub enum CharMapAction<'a> {
    /// Output the character as is.
    Pass,
    /// Delete the character.
    Delete,
    /// Substitute the character with a string.
    SubStr(&'a str),
    /// Substitute the character with another character.
    SubChar(char),
}

/// The mathematical value of an action: what a resolved action means for the
/// output, independent of how its payload is stored.
pub ghost enum ActionModel {
    /// Emit the input character unchanged.
    Pass,
    /// Emit nothing for the input character.
    Delete,
    /// Emit this sequence of characters in place of the input character.
    SubSeq(Seq<char>),
    /// Emit exactly this character in place of the input character.
    SubChar(char),
}

impl<'a> View for CharMapAction<'a> {
    type V = ActionModel;

    open spec fn view(&self) -> ActionModel {
        match *self {
            CharMapAction::Pass => ActionModel::Pass,
            CharMapAction::Delete => ActionModel::Delete,
            CharMapAction::SubStr(s) => ActionModel::SubSeq(s@),
            CharMapAction::SubChar(c) => ActionModel::SubChar(c),
        }
    }
}

/// The characters an action contributes to the output in place of the input
/// character `c`.
pub open spec fn action_output(a: ActionModel, c: char) -> Seq<char> {
    match a {
        ActionModel::Pass => seq![c],
        ActionModel::Delete => Seq::<char>::empty(),
        ActionModel::SubSeq(s) => s,
        ActionModel::SubChar(d) => seq![d],
    }
}

/// A trait that should be implemented by any struct providing char-to-action
/// mappings for [`CharMapper`](crate::CharMapper).
pub trait ActionMap {
    /// The mapping as a mathematical partial function from characters to
    /// action values.
    spec fn spec_map_char(&self, c: char) -> Option<ActionModel>;

    /// Map a character to its respective [`CharMapAction`].
    fn map_char(&self, c: char) -> (r: Option<&CharMapAction>)
        ensures
            match r {
                Some(a) => self.spec_map_char(c) == Some(a@),
                None => self.spec_map_char(c) is None,
            },
    ;
}

// ====== ActionMap implementations for most commonly used maps ====== //

/// Relies on `std::collections::HashMap::get` with a `char` key: it returns a
/// reference to the value stored under the key, and `None` exactly when the
/// map has no entry for it (std's own `Eq` and `Hash` for `char`, and a hash
/// builder meeting std's documented `BuildHasher` contract).
#[verifier::external_body]
fn std_hash_map_get<'m, 'a, S: BuildHasher>(
    m: &'m HashMap<char, CharMapAction<'a>, S>,
    c: char,
) -> (r: Option<&'m CharMapAction<'a>>)
    ensures
        match r {
            Some(a) => m@.contains_key(c) && *a == m@[c],
            None => !m@.contains_key(c),
        },
{
    m.get(&c)
}

impl<'a, S: BuildHasher> ActionMap for HashMap<char, CharMapAction<'a>, S> {
    open spec fn spec_map_char(&self, c: char) -> Option<ActionModel> {
        if self@.contains_key(c) {
            Some(self@[c]@)
        } else {
            None
        }
    }

    fn map_char(&self, c: char) -> (r: Option<&CharMapAction>) {
        std_hash_map_get(self, c)
    }
}

/// Relies on `std::collections::BTreeMap::get` with a `char` key: it returns
/// a reference to the value stored under the key, and `None` exactly when the
/// map has no entry for it (std's own total order on `char`).
#[verifier::external_body]
fn std_btree_map_get<'m, 'a>(
    m: &'m BTreeMap<char, CharMapAction<'a>>,
    c: char,
) -> (r: Option<&'m CharMapAction<'a>>)
    ensures
        match r {
            Some(a) => m@.contains_key(c) && *a == m@[c],
            None => !m@.contains_key(c),
        },
{
    m.get(&c)
}

impl<'a> ActionMap for BTreeMap<char, CharMapAction<'a>> {
    open spec fn spec_map_char(&self, c: char) -> Option<ActionModel> {
        if self@.contains_key(c) {
            Some(self@[c]@)
        } else {
            None
        }
    }

    fn map_char(&self, c: char) -> (r: Option<&CharMapAction>) {
        std_btree_map_get(self, c)
    }
}

#[verifier::external_type_specification]
#[verifier::external_body]
#[verifier::reject_recursive_types(K)]
#[verifier::reject_recursive_types(V)]
#[verifier::reject_recursive_types(S)]
pub struct ExHashbrownHashMap<K, V, S>(hashbrown::HashMap<K, V, S>);

#[verifier::external_type_specification]
#[verifier::external_body]
pub struct ExAhashRandomState(ahash::RandomState);

/// The entries a `hashbrown` map holds, as a mathematical map from characters
/// to action values.
pub uninterp spec fn hashbrown_map_entries(
    m: &hashbrown::HashMap<char, CharMapAction, ahash::RandomState>,
) -> Map<char, ActionModel>;

/// Relies on `hashbrown::HashMap::get` with a `char` key: it returns a
/// reference to the value stored under the key, and `None` exactly when the
/// map has no entry for it, a function of the map value alone.
#[verifier::external_body]
fn hashbrown_map_get<'m, 'a>(
    m: &'m hashbrown::HashMap<char, CharMapAction<'a>>,
    c: char,
) -> (r: Option<&'m CharMapAction<'a>>)
    ensures
        match r {
            Some(a) => hashbrown_map_entries(m).contains_key(c) && a@ == hashbrown_map_entries(
                m,
            )[c],
            None => !hashbrown_map_entries(m).contains_key(c),
        },
{
    m.get(&c)
}

impl<'a> ActionMap for hashbrown::HashMap<char, CharMapAction<'a>> {
    open spec fn spec_map_char(&self, c: char) -> Option<ActionModel> {
        if hashbrown_map_entries(self).contains_key(c) {
            Some(hashbrown_map_entries(self)[c])
        } else {
            None
        }
    }

    fn map_char(&self, c: char) -> (r: Option<&CharMapAction>) {
        hashbrown_map_get(self, c)
    }
}

#[verifier::external_type_specification]
#[verifier::external_body]
#[verifier::reject_recursive_types(K)]
#[verifier::reject_recursive_types(V)]
pub struct ExPhfMap<K: 'static, V: 'static>(phf::Map<K, V>);

#[verifier::external_type_specification]
#[verifier::external_body]
#[verifier::reject_recursive_types(K)]
#[verifier::reject_recursive_types(V)]
pub struct ExPhfOrderedMap<K: 'static, V: 'static>(phf::OrderedMap<K, V>);

/// The entries a `phf::Map` holds, as a mathematical map from characters to
/// action values.
pub uninterp spec fn phf_map_entries(m: &phf::Map<char, CharMapAction>) -> Map<char, ActionModel>;

/// Relies on `phf::Map::get` with a `char` key: the map is immutable and the
/// lookup returns the entry stored under the key, and `None` exactly when the
/// map has no entry for it (phf_shared's architecture-independent hash).
#[verifier::external_body]
fn phf_map_get<'m, 'a>(
    m: &'m phf::Map<char, CharMapAction<'a>>,
    c: char,
) -> (r: Option<&'m CharMapAction<'a>>)
    ensures
        match r {
            Some(a) => phf_map_entries(m).contains_key(c) && a@ == phf_map_entries(m)[c],
            None => !phf_map_entries(m).contains_key(c),
        },
{
    m.get(&c)
}

impl<'a> ActionMap for phf::Map<char, CharMapAction<'a>> {
    open spec fn spec_map_char(&self, c: char) -> Option<ActionModel> {
        if phf_map_entries(self).contains_key(c) {
            Some(phf_map_entries(self)[c])
        } else {
            None
        }
    }

    fn map_char(&self, c: char) -> (r: Option<&CharMapAction>) {
        phf_map_get(self, c)
    }
}

/// The entries a `phf::OrderedMap` holds, as a mathematical map from
/// characters to action values.
pub uninterp spec fn phf_ordered_map_entries(
    m: &phf::OrderedMap<char, CharMapAction>,
) -> Map<char, ActionModel>;

/// Relies on `phf::OrderedMap::get` with a `char` key: the map is immutable
/// and the lookup returns the entry stored under the key, and `None` exactly
/// when the map has no entry for it (phf_shared's architecture-independent
/// hash).
#[verifier::external_body]
fn phf_ordered_map_get<'m, 'a>(
    m: &'m phf::OrderedMap<char, CharMapAction<'a>>,
    c: char,
) -> (r: Option<&'m CharMapAction<'a>>)
    ensures
        match r {
            Some(a) => phf_ordered_map_entries(m).contains_key(c) && a@ == phf_ordered_map_entries(
                m,
            )[c],
            None => !phf_ordered_map_entries(m).contains_key(c),
        },
{
    m.get(&c)
}

impl<'a> ActionMap for phf::OrderedMap<char, CharMapAction<'a>> {
    open spec fn spec_map_char(&self, c: char) -> Option<ActionModel> {
        if phf_ordered_map_entries(self).contains_key(c) {
            Some(phf_ordered_map_entries(self)[c])
        } else {
            None
        }
    }

    fn map_char(&self, c: char) -> (r: Option<&CharMapAction>) {
        phf_ordered_map_get(self, c)
    }
}

} // verus!
