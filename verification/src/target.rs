//! The two voting targets, and how a configured name selects one of them.

use vstd::prelude::*;

verus! {

/// The emoji that a running client casts its votes for.
#[derive(Clone, Copy, Debug, PartialEq, Eq, Structural)]
pub enum TargetEmoji {
    Joy,
    Phantom,
}

/// The remote procedure that casts one vote.
#[derive(Clone, Copy, Debug, PartialEq, Eq, Structural)]
pub enum RpcMethod {
    VoteJoy,
    VoteGhost,
}

/// A name that selects no voting target.
#[derive(Clone, Debug, PartialEq, Eq)]
pub struct ResolutionError {
    /// The name as it was given.
    pub value: String,
}

/// The glyph that selects `TargetEmoji::Joy`.
pub const JOY_GLYPH: char = '\u{1F923}';

/// The glyph that selects `TargetEmoji::Phantom`.
pub const GHOST_GLYPH: char = '\u{1F47B}';

/// `c` with the letters `A` to `Z` replaced by `a` to `z`.
pub open spec fn ascii_lower(c: char) -> char {
    if 'A' <= c && c <= 'Z' {
        ((c as u8) + 32) as char
    } else {
        c
    }
}

/// `name` with every character folded by `ascii_lower`.
pub open spec fn lowered(name: Seq<char>) -> Seq<char> {
    Seq::new(name.len(), |i: int| ascii_lower(name[i]))
}

/// The target that `name` selects, if it selects one: the target's word in
/// any mix of upper and lower case, or the target's glyph.
pub open spec fn resolve(name: Seq<char>) -> Option<TargetEmoji> {
    let folded = lowered(name);
    if folded == TargetEmoji::Joy.word() || folded == TargetEmoji::Joy.glyph() {
        Some(TargetEmoji::Joy)
    } else if folded == TargetEmoji::Phantom.word() || folded == TargetEmoji::Phantom.glyph() {
        Some(TargetEmoji::Phantom)
    } else {
        None
    }
}

impl TargetEmoji {
    /// The word that names the target, in lower case.
    pub open spec fn word(self) -> Seq<char> {
        match self {
            TargetEmoji::Joy => seq!['j', 'o', 'y'],
            TargetEmoji::Phantom => seq!['g', 'h', 'o', 's', 't'],
        }
    }

    /// The target's glyph, as a name of one character.
    pub open spec fn glyph(self) -> Seq<char> {
        match self {
            TargetEmoji::Joy => seq![JOY_GLYPH],
            TargetEmoji::Phantom => seq![GHOST_GLYPH],
        }
    }

    /// The remote procedure bound to the target.
    pub open spec fn bound_method(self) -> RpcMethod {
        match self {
            TargetEmoji::Joy => RpcMethod::VoteJoy,
            TargetEmoji::Phantom => RpcMethod::VoteGhost,
        }
    }

    /// The remote procedure that casts a vote for this target.
    pub fn method(self) -> (method: RpcMethod)
        ensures
            method == self.bound_method(),
    {
        match self {
            TargetEmoji::Joy => RpcMethod::VoteJoy,
            TargetEmoji::Phantom => RpcMethod::VoteGhost,
        }
    }

    /// The target's word: `joy` or `ghost`.
    pub fn as_str(self) -> (word: &'static str)
        ensures
            word@ == self.word(),
    {
        proof {
            reveal_strlit("joy");
            reveal_strlit("ghost");
        }
        match self {
            TargetEmoji::Joy => "joy",
            TargetEmoji::Phantom => "ghost",
        }
    }

    /// Selects the target that `value` names. Succeeds exactly on the names
    /// that `resolve` accepts; any other name comes back in the error.
    pub fn from_str(value: &str) -> (selected: Result<TargetEmoji, ResolutionError>)
        ensures
            match resolve(value@) {
                Some(target) => selected == Ok::<TargetEmoji, ResolutionError>(target),
                None => selected is Err && selected->Err_0.value@ == value@,
            },
    {
proof {
            lemma_resolve_by_letters(value@);
        }
        let length: usize = value.unicode_len();
        if length == 1 {
            let glyph: char = fold(value.get_char(0));
            if glyph == JOY_GLYPH {
                return Ok(TargetEmoji::Joy);
            }
            if glyph == GHOST_GLYPH {
                return Ok(TargetEmoji::Phantom);
            }
        } else if length == 3 {
            let first: char = fold(value.get_char(0));
            let second: char = fold(value.get_char(1));
            let third: char = fold(value.get_char(2));
            if first == 'j' && second == 'o' && third == 'y' {
                return Ok(TargetEmoji::Joy);
            }
        } else if length == 5 {
            let first: char = fold(value.get_char(0));
            let second: char = fold(value.get_char(1));
            let third: char = fold(value.get_char(2));
            let fourth: char = fold(value.get_char(3));
            let fifth: char = fold(value.get_char(4));
            if first == 'g' && second == 'h' && third == 'o' && fourth == 's' && fifth == 't' {
                return Ok(TargetEmoji::Phantom);
            }
        }
        Err(ResolutionError { value: value.to_owned() })
    }
}

/// Whether `name`, folded to lower case, spells `letters`.
pub open spec fn spells(name: Seq<char>, letters: Seq<char>) -> bool {
    &&& name.len() == letters.len()
    &&& forall|i: int| 0 <= i < name.len() ==> ascii_lower(#[trigger] name[i]) == letters[i]
}

/// `resolve`, read letter by letter: a name selects a target exactly when it
/// spells the target's word or glyph.
pub proof fn lemma_resolve_by_letters(name: Seq<char>)
    ensures
        resolve(name) == Some(TargetEmoji::Joy) <==> spells(name, TargetEmoji::Joy.word())
            || spells(name, TargetEmoji::Joy.glyph()),
        resolve(name) == Some(TargetEmoji::Phantom) <==> spells(name, TargetEmoji::Phantom.word())
            || spells(name, TargetEmoji::Phantom.glyph()),
{
    lemma_spells(name, TargetEmoji::Joy.word());
    lemma_spells(name, TargetEmoji::Joy.glyph());
    lemma_spells(name, TargetEmoji::Phantom.word());
    lemma_spells(name, TargetEmoji::Phantom.glyph());
    assert(TargetEmoji::Joy.word().len() == 3 && TargetEmoji::Phantom.word().len() == 5);
    assert(TargetEmoji::Joy.glyph()[0] != TargetEmoji::Phantom.glyph()[0]);
}

proof fn lemma_spells(name: Seq<char>, letters: Seq<char>)
    ensures
        spells(name, letters) <==> lowered(name) == letters,
{
    if spells(name, letters) {
        assert(lowered(name) =~= letters);
    }
    if lowered(name) == letters {
        assert forall|i: int| 0 <= i < name.len() implies ascii_lower(#[trigger] name[i])
            == letters[i] by {
            assert(lowered(name)[i] == ascii_lower(name[i]));
        }
    }
}

/// The name that `name` stands for: the word of the target it selects, or
/// `name` itself where it selects none.
pub open spec fn canonical(name: Seq<char>) -> Seq<char> {
    match resolve(name) {
        Some(target) => target.word(),
        None => name,
    }
}

/// Folding to lower case twice is folding once.
pub proof fn lemma_lowered_is_idempotent(name: Seq<char>)
    ensures
        lowered(lowered(name)) == lowered(name),
{
    assert(lowered(lowered(name)) =~= lowered(name));
}

/// Upper and lower case select alike: a name and its lower-case form select
/// the same target, or both select none.
pub proof fn lemma_resolve_ignores_case(name: Seq<char>)
    ensures
        resolve(lowered(name)) == resolve(name),
{
    lemma_lowered_is_idempotent(name);
}

/// Each target's word and each target's glyph select that target.
pub proof fn lemma_word_and_glyph_select(target: TargetEmoji)
    ensures
        resolve(target.word()) == Some(target),
        resolve(target.glyph()) == Some(target),
{
    lemma_resolve_by_letters(target.word());
    lemma_resolve_by_letters(target.glyph());
}

/// Resolving a name and writing the target back as its word is stable: the
/// word selects the same target again, and writing that one back gives the
/// same word.
pub proof fn lemma_round_trip_is_stable(name: Seq<char>)
    ensures
        resolve(canonical(name)) == resolve(name),
        canonical(canonical(name)) == canonical(name),
{
    match resolve(name) {
        Some(target) => {
            lemma_word_and_glyph_select(target);
        },
        None => {},
    }
}

fn fold(c: char) -> (folded: char)
    ensures
        folded == ascii_lower(c),
{
    if 'A' <= c && c <= 'Z' {
        ((c as u8) + 32) as char
    } else {
        c
    }
}

} // verus!
