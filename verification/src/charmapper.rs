use vstd::prelude::*;

verus! {

use core::str::Chars;
use vstd::std_specs::iter::IteratorSpec;

use crate::actionmap::{ActionMap, ActionModel, CharMapAction, action_output};

/// Primary struct used for character mapping.
pub struct CharMapper<'a, M> where M: ActionMap {
    actionmap: &'a M,
    default: CharMapAction<'a>,
}

impl<'a, M> CharMapper<'a, M> where M: ActionMap {
    /// The entry the underlying action map holds for `c`, if any.
    pub closed spec fn spec_entry(&self, c: char) -> Option<ActionModel> {
        self.actionmap.spec_map_char(c)
    }

    /// The action value taken for a character the action map has no entry
    /// for.
    pub closed spec fn spec_default(&self) -> ActionModel {
        self.default@
    }

    /// The action value this mapper resolves `c` to: the map's entry when
    /// present, the configured default otherwise.
    pub open spec fn spec_resolve(&self, c: char) -> ActionModel {
        match self.spec_entry(c) {
            Some(a) => a,
            None => self.spec_default(),
        }
    }

    /// The full transformed output for an input sequence: each character's
    /// contribution, in input order.
    pub open spec fn spec_output(&self, input: Seq<char>) -> Seq<char>
        decreases input.len(),
    {
        if input.len() == 0 {
            Seq::<char>::empty()
        } else {
            action_output(self.spec_resolve(input[0]), input[0]) + self.spec_output(
                input.drop_first(),
            )
        }
    }

    /// Creates a new [`CharMapper`] with a given [`ActionMap`] and a default
    /// action to take if a character is not in the given [`ActionMap`].
    pub fn new(actionmap: &'a M, default: CharMapAction<'a>) -> (r: Self)
        ensures
            forall|c: char| r.spec_entry(c) == actionmap.spec_map_char(c),
            r.spec_default() == default@,
    {
        CharMapper { actionmap, default }
    }

    /// Returns the [`CharMapAction`] associated with a given character.
    pub fn get_action(&'a self, c: char) -> (r: &'a CharMapAction<'a>)
        ensures
            r@ == self.spec_resolve(c),
    {
        match self.actionmap.map_char(c) {
            None => &self.default,
            Some(action) => action,
        }
    }

    /// Returns an iterator that maps characters from a given character
    /// iterator.
    pub fn map_chars_iter<I>(&'a self, text_chars: I) -> (r: MappedChars<'a, M, I>) where
        I: Iterator<Item = char>,

        ensures
            r.spec_mapper() == *self,
            r.spec_source() == text_chars,
            !r.spec_in_sub(),
    {
        MappedChars::new(self, text_chars)
    }
}

/// The output still owed by a transform, given the unconsumed part of the
/// current substitution span and the unconsumed part of the input source.
pub open spec fn pending_output<'a, M: ActionMap>(
    mapper: CharMapper<'a, M>,
    in_sub: bool,
    sub_rest: Seq<char>,
    source_rest: Seq<char>,
) -> Seq<char> {
    (if in_sub {
        sub_rest
    } else {
        Seq::<char>::empty()
    }) + mapper.spec_output(source_rest)
}

/// Law: a mapper that resolves every character to Pass maps every input
/// sequence, the empty one included, to itself.
pub proof fn lemma_pass_only_identity<'a, M: ActionMap>(m: CharMapper<'a, M>, input: Seq<char>)
    requires
        forall|c: char| m.spec_resolve(c) == ActionModel::Pass,
    ensures
        m.spec_output(input) == input,
    decreases input.len(),
{
    if input.len() == 0 {
        assert(m.spec_output(input) =~= input);
    } else {
        lemma_pass_only_identity(m, input.drop_first());
        assert(m.spec_output(input) =~= input);
    }
}

/// Law: two mappers whose per-character output contributions agree produce
/// the same output on every input, whatever lookup structures back them.
pub proof fn lemma_pointwise_agreement<'a, 'b, M1: ActionMap, M2: ActionMap>(
    m1: CharMapper<'a, M1>,
    m2: CharMapper<'b, M2>,
    input: Seq<char>,
)
    requires
        forall|c: char| #[trigger] action_output(m1.spec_resolve(c), c) == action_output(
            m2.spec_resolve(c),
            c,
        ),
    ensures
        m1.spec_output(input) == m2.spec_output(input),
    decreases input.len(),
{
    if input.len() != 0 {
        lemma_pointwise_agreement(m1, m2, input.drop_first());
        assert(m1.spec_output(input) =~= m2.spec_output(input));
    }
}

/// Law: deleting a character and substituting the empty span for it are
/// observationally indistinguishable. Mappers that resolve alike except that
/// one maps `c` to Delete where the other maps `c` to an empty substitution
/// produce identical output on every input, in either direction.
pub proof fn lemma_delete_empty_sub_equiv<'a, 'b, M1: ActionMap, M2: ActionMap>(
    m1: CharMapper<'a, M1>,
    m2: CharMapper<'b, M2>,
    c: char,
    input: Seq<char>,
)
    requires
        m1.spec_resolve(c) == ActionModel::Delete,
        m2.spec_resolve(c) == ActionModel::SubSeq(Seq::<char>::empty()),
        forall|d: char| d != c ==> m1.spec_resolve(d) == m2.spec_resolve(d),
    ensures
        m1.spec_output(input) == m2.spec_output(input),
{
    assert forall|d: char| #[trigger] action_output(m1.spec_resolve(d), d) == action_output(
        m2.spec_resolve(d),
        d,
    ) by {
        if d == c {
            assert(action_output(m1.spec_resolve(d), d) =~= action_output(m2.spec_resolve(d), d));
        }
    }
    lemma_pointwise_agreement(m1, m2, input);
}

/// Law: a character the action map has no entry for contributes exactly what
/// the mapper's configured default action contributes for it.
pub proof fn lemma_default_fallback<'a, M: ActionMap>(m: CharMapper<'a, M>, c: char)
    requires
        m.spec_entry(c) is None,
    ensures
        m.spec_resolve(c) == m.spec_default(),
        action_output(m.spec_resolve(c), c) == action_output(m.spec_default(), c),
{
}

/// Law: the output decomposes head-first. The first input character's whole
/// contribution stands before the output of the remaining input, with no
/// interleaving.
pub proof fn lemma_output_cons<'a, M: ActionMap>(m: CharMapper<'a, M>, c: char, rest: Seq<char>)
    ensures
        m.spec_output(seq![c] + rest) == action_output(m.spec_resolve(c), c) + m.spec_output(rest),
{
    let input = seq![c] + rest;
    assert(input[0] == c);
    assert(input.drop_first() =~= rest);
}

/// Law: a substituted span is emitted exactly and in order in place of its
/// input character, before any output of the following characters.
pub proof fn lemma_substitution_ordering<'a, M: ActionMap>(
    m: CharMapper<'a, M>,
    c: char,
    span: Seq<char>,
    rest: Seq<char>,
)
    requires
        m.spec_resolve(c) == ActionModel::SubSeq(span),
    ensures
        m.spec_output(seq![c] + rest) == span + m.spec_output(rest),
{
    lemma_output_cons(m, c, rest);
}

/// Character iterator returned by
/// [`CharMapper::map_chars_iter`](CharMapper::map_chars_iter).
pub struct MappedChars<'a, M, I> where M: ActionMap, I: Iterator<Item = char> {
    charmapper: &'a CharMapper<'a, M>,
    text_chars: I,
    sub_chars: Chars<'a>,
    in_sub: bool,
}

impl<'a, M, I> MappedChars<'a, M, I> where M: ActionMap, I: Iterator<Item = char> {
    /// The bound mapper.
    pub closed spec fn spec_mapper(&self) -> CharMapper<'a, M> {
        *self.charmapper
    }

    /// The cursor over the unconsumed part of the input source.
    pub closed spec fn spec_source(&self) -> I {
        self.text_chars
    }

    /// The cursor over the unconsumed part of the current substitution span.
    pub closed spec fn spec_sub_cursor(&self) -> Chars<'a> {
        self.sub_chars
    }

    /// Whether a substitution span is currently being drained.
    pub closed spec fn spec_in_sub(&self) -> bool {
        self.in_sub
    }

    /// The input source meets vstd's iterator contract, and both cursors
    /// carry a termination metric.
    pub open spec fn wf(&self) -> bool {
        &&& self.spec_source().obeys_prophetic_iter_laws()
        &&& self.spec_source().decrease() is Some
        &&& self.spec_in_sub() ==> self.spec_sub_cursor().decrease() is Some
    }

    /// How much of the input source is left to pull, by the source's own
    /// termination metric.
    pub open spec fn source_measure(&self) -> nat {
        self.spec_source().decrease()->0
    }

    /// How much of the current substitution span is left to drain.
    pub open spec fn sub_measure(&self) -> nat {
        if self.spec_in_sub() {
            self.spec_sub_cursor().decrease()->0 + 1
        } else {
            0
        }
    }

    fn new(charmapper: &'a CharMapper<'a, M>, text_chars: I) -> (r: Self)
        ensures
            r.spec_mapper() == *charmapper,
            r.spec_source() == text_chars,
            !r.spec_in_sub(),
    {
        MappedChars { charmapper, text_chars, sub_chars: "".chars(), in_sub: false }
    }

    /// Produce the next output character, or report that the transformed
    /// sequence is exhausted. Once it reports exhaustion, every later call
    /// reports exhaustion as well.
    pub fn next(&mut self) -> (r: Option<char>)
        requires
            old(self).wf(),
        ensures
            final(self).wf(),
            final(self).spec_mapper() == old(self).spec_mapper(),
            r is Some ==> {
                ||| final(self).source_measure() < old(self).source_measure()
                ||| (final(self).source_measure() == old(self).source_measure()
                    && final(self).sub_measure() < old(self).sub_measure())
            },
            ({
                let old_out = pending_output(
                    old(self).spec_mapper(),
                    old(self).spec_in_sub(),
                    old(self).spec_sub_cursor().remaining(),
                    old(self).spec_source().remaining(),
                );
                let new_out = pending_output(
                    final(self).spec_mapper(),
                    final(self).spec_in_sub(),
                    final(self).spec_sub_cursor().remaining(),
                    final(self).spec_source().remaining(),
                );
                match r {
                    Some(c) => old_out == seq![c] + new_out,
                    None => {
                        &&& old_out == Seq::<char>::empty()
                        &&& new_out == Seq::<char>::empty()
                        &&& final(self).spec_source().remaining() == Seq::<char>::empty()
                        &&& !final(self).spec_in_sub()
                    },
                }
            }),
    {
        // Check if we're currently outputting characters from a substitution
        // span.
        if self.in_sub {
            match self.sub_chars.next() {
                Some(c) => {
                    proof {
                        let sub_rest = old(self).spec_sub_cursor().remaining();
                        assert(sub_rest =~= seq![c] + sub_rest.drop_first());
                        assert(sub_rest + old(self).spec_mapper().spec_output(
                            self.text_chars.remaining(),
                        ) =~= seq![c] + (sub_rest.drop_first() + old(self).spec_mapper().spec_output(
                            self.text_chars.remaining(),
                        )));
                    }
                    return Some(c);
                },
                None => {
                    self.in_sub = false;
                },
            }
        }
        // We need to keep looping through the input until we get an action
        // that emits something.
        loop
            invariant
                self.charmapper == old(self).charmapper,
                !self.in_sub,
                self.wf(),
                self.source_measure() <= old(self).source_measure(),
                pending_output(
                    old(self).spec_mapper(),
                    old(self).spec_in_sub(),
                    old(self).spec_sub_cursor().remaining(),
                    old(self).spec_source().remaining(),
                ) == (*self.charmapper).spec_output(self.text_chars.remaining()),
            decreases self.text_chars.decrease()->0,
        {
            let ghost src_rest = self.text_chars.remaining();
            match self.text_chars.next() {
                Some(c) => {
                    proof {
                        assert(src_rest =~= seq![c] + src_rest.drop_first());
                    }
                    match self.charmapper.get_action(c) {
                        CharMapAction::Pass => {
                            return Some(c);
                        },
                        CharMapAction::Delete => {
                            proof {
                                assert(Seq::<char>::empty() + (*self.charmapper).spec_output(
                                    self.text_chars.remaining(),
                                ) =~= (*self.charmapper).spec_output(self.text_chars.remaining()));
                            }
                        },
                        CharMapAction::SubChar(d) => {
                            return Some(*d);
                        },
                        CharMapAction::SubStr(s) => {
                            self.in_sub = true;
                            self.sub_chars = s.chars();
                            // Can't unwrap directly because the substitution
                            // span could be empty.
                            match self.sub_chars.next() {
                                Some(c2) => {
                                    proof {
                                        let span = s@;
                                        assert(span =~= seq![c2] + span.drop_first());
                                        assert(span + (*self.charmapper).spec_output(
                                            self.text_chars.remaining(),
                                        ) =~= seq![c2] + (span.drop_first() + (
                                        *self.charmapper).spec_output(
                                            self.text_chars.remaining(),
                                        )));
                                    }
                                    return Some(c2);
                                },
                                None => {
                                    self.in_sub = false;
                                    proof {
                                        assert(Seq::<char>::empty() + (
                                        *self.charmapper).spec_output(self.text_chars.remaining())
                                            =~= (*self.charmapper).spec_output(
                                            self.text_chars.remaining(),
                                        ));
                                    }
                                },
                            }
                        },
                    }
                },
                None => {
                    return None;
                },
            }
        }
    }

    /// Collects every remaining output character into a `String`, leaving
    /// the transform exhausted.
    pub fn collect_string(&mut self) -> (r: String)
        requires
            old(self).wf(),
        ensures
            r@ == pending_output(
                old(self).spec_mapper(),
                old(self).spec_in_sub(),
                old(self).spec_sub_cursor().remaining(),
                old(self).spec_source().remaining(),
            ),
    {
        let ghost total = pending_output(
            old(self).spec_mapper(),
            old(self).spec_in_sub(),
            old(self).spec_sub_cursor().remaining(),
            old(self).spec_source().remaining(),
        );
        let mut out = String::new();
        loop
            invariant
                self.wf(),
                total == pending_output(
                    old(self).spec_mapper(),
                    old(self).spec_in_sub(),
                    old(self).spec_sub_cursor().remaining(),
                    old(self).spec_source().remaining(),
                ),
                out@ + pending_output(
                    self.spec_mapper(),
                    self.spec_in_sub(),
                    self.spec_sub_cursor().remaining(),
                    self.spec_source().remaining(),
                ) == total,
            decreases self.source_measure(), self.sub_measure(),
        {
            let ghost rest = pending_output(
                self.spec_mapper(),
                self.spec_in_sub(),
                self.spec_sub_cursor().remaining(),
                self.spec_source().remaining(),
            );
            match self.next() {
                Some(c) => {
                    string_push(&mut out, c);
                    proof {
                        let new_rest = pending_output(
                            self.spec_mapper(),
                            self.spec_in_sub(),
                            self.spec_sub_cursor().remaining(),
                            self.spec_source().remaining(),
                        );
                        assert(out@ + new_rest =~= total);
                    }
                },
                None => {
                    proof {
                        assert(out@ + rest =~= out@);
                    }
                    return out;
                },
            }
        }
    }
}

/// Relies on `String::push`: it appends the given character to the end of
/// the string.
#[verifier::external_body]
fn string_push(s: &mut String, c: char)
    ensures
        final(s)@ == old(s)@ + seq![c],
{
    s.push(c)
}

/// A trait providing a convenience method for [`Iterator`]s of [`char`] to
/// charmap their output.
pub trait MapCharsIter<'a, M, I: Iterator<Item = char>> where M: ActionMap {
    /// Builds a fresh [`MappedChars`] stream that transforms this value's
    /// characters with the given mapper.
    fn map_chars(self, mapper: &'a CharMapper<'a, M>) -> (r: MappedChars<'a, M, I>)
        ensures
            r.spec_mapper() == *mapper,
            !r.spec_in_sub(),
    ;
}

impl<'a, M> MapCharsIter<'a, M, Chars<'a>> for &'a str where M: ActionMap {
    fn map_chars(self, mapper: &'a CharMapper<'a, M>) -> (r: MappedChars<'a, M, Chars<'a>>)
        ensures
            r.wf(),
            r.spec_source().remaining() == self@,
    {
        MappedChars::new(mapper, self.chars())
    }
}

impl<'a, M> MapCharsIter<'a, M, std::vec::IntoIter<char>> for char where M: ActionMap {
    fn map_chars(self, mapper: &'a CharMapper<'a, M>) -> (r: MappedChars<
        'a,
        M,
        std::vec::IntoIter<char>,
    >)
        ensures
            r.wf(),
            r.spec_source().remaining() == seq![self],
    {
        let single: Vec<char> = vec![self];
        MappedChars::new(mapper, single.into_iter())
    }
}

impl<'a, M, I: Iterator<Item = char>> MapCharsIter<'a, M, I> for I where M: ActionMap {
    fn map_chars(self, mapper: &'a CharMapper<'a, M>) -> (r: MappedChars<'a, M, I>)
        ensures
            r.spec_source() == self,
    {
        MappedChars::new(mapper, self)
    }
}

} // verus!
