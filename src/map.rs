use vstd::prelude::*;

use crate::color::{color_literal, parse_color, Color};
use crate::error::{ErrorKind, UserError};
use crate::keys::{key_index_of, parse_key_name, NUM_KEYS};
use crate::text::{str_eq, trim_start_all, trim_start_all_of};

verus! {

/// What an instruction colours: every key, or the key at one index.
#[derive(Clone, Copy, Debug, PartialEq, Eq, Structural)]
pub enum Target {
    All,
    Key(usize),
}

/// What `str::to_uppercase` makes of a string.
pub uninterp spec fn upper_of(s: Seq<char>) -> Seq<char>;

/// Relies on `str::to_uppercase`: its result depends on the characters alone.
#[verifier::external_body]
fn to_upper(s: &str) -> (r: String)
    ensures
        r@ == upper_of(s@),
{
    s.to_uppercase()
}

/// The target named by an upper-cased instruction key: `ALL`, or a key name
/// with any leading `KEY_` prefixes removed.
pub open spec fn target_of(name: Seq<char>) -> Option<Target> {
    if name == "ALL"@ {
        Some(Target::All)
    } else {
        match key_index_of(trim_start_all(name, "KEY_"@)) {
            Some(i) => Some(Target::Key(i)),
            None => None,
        }
    }
}

/// `map` after colouring `target` with `color`; `None` where the index lies
/// outside the map.
pub open spec fn assigned(map: Seq<Color>, target: Target, color: Color) -> Option<Seq<Color>> {
    match target {
        Target::All => Some(Seq::new(map.len(), |i: int| color)),
        Target::Key(i) => if i < map.len() {
            Some(map.update(i as int, color))
        } else {
            None
        },
    }
}

/// The map that the instructions from `args[pos]` on make of `map`, or the
/// kind of the first error. Each instruction is a key followed by a colour;
/// a malformed colour is reported before an unknown key.
pub open spec fn apply_from(map: Seq<Color>, args: Seq<&str>, pos: int) -> Result<
    Seq<Color>,
    ErrorKind,
>
    decreases args.len() - pos,
{
    if pos < 0 || pos >= args.len() {
        Ok(map)
    } else {
        match color_literal(args, pos + 1) {
            None => Err(ErrorKind::MalformedColorLiteral),
            Some((c, next)) => match target_of(upper_of(args[pos]@)) {
                None => Err(ErrorKind::InvalidKeyName),
                Some(t) => match assigned(map, t, c) {
                    None => Err(ErrorKind::InvalidKeyName),
                    Some(m) => apply_from(m, args, next),
                },
            },
        }
    }
}

/// The map with every key off.
pub open spec fn blank_map() -> Seq<Color> {
    Seq::new(144, |i: int| Color { r: 0, g: 0, b: 0 })
}

/// A map with every key off.
pub fn new_map() -> (m: [Color; 144])
    ensures
        m@ == blank_map(),
{
    let m = [Color { r: 0, g: 0, b: 0 }; NUM_KEYS];
    assert(m@ =~= blank_map());
    m
}

/// Colours `target` with `color`; a later assignment overrides an earlier one.
pub fn assign(map: &mut [Color; 144], target: Target, color: Color) -> (r: Result<(), UserError>)
    ensures
        r is Ok <==> assigned(old(map)@, target, color) is Some,
        r is Ok ==> assigned(old(map)@, target, color) == Some(final(map)@),
        r matches Err(e) ==> e.kind == ErrorKind::InvalidKeyName && *final(map) == *old(map),
{
    match target {
        Target::All => {
            let mut i: usize = 0;
            while i < NUM_KEYS
                invariant
                    i <= NUM_KEYS,
                    forall|j: int| 0 <= j < i ==> map@[j] == color,
                decreases NUM_KEYS - i,
            {
                map[i] = color;
                i = i + 1;
            }
            assert(map@ =~= Seq::new(144, |j: int| color));
            Ok(())
        },
        Target::Key(i) => {
            if i < NUM_KEYS {
                map[i] = color;
                Ok(())
            } else {
                Err(UserError::new(ErrorKind::InvalidKeyName, ""))
            }
        },
    }
}

/// Resolves an upper-cased instruction key to what it colours.
pub fn resolve_target(name: &str) -> (r: Option<Target>)
    ensures
        r == target_of(name@),
{
    if str_eq(name, "ALL") {
        Some(Target::All)
    } else {
        proof {
            reveal_strlit("KEY_");
        }
        match parse_key_name(trim_start_all_of(name, "KEY_")) {
            Some(i) => Some(Target::Key(i)),
            None => None,
        }
    }
}

/// Applies the instructions in `args`, each a key (any case, `ALL` for every
/// key) followed by a colour. On the first error nothing is applied and the
/// map is left as it was.
pub fn set_map(map: &mut [Color; 144], args: &[&str]) -> (r: Result<(), UserError>)
    ensures
        match apply_from(old(map)@, args@, 0) {
            Ok(m) => r is Ok && final(map)@ == m,
            Err(kind) => r matches Err(e) && e.kind == kind && *final(map) == *old(map),
        },
{
    let mut work: [Color; 144] = *map;
    let mut pos: usize = 0;
    while pos < args.len()
        invariant
            pos <= args@.len(),
            apply_from(work@, args@, pos as int) == apply_from(old(map)@, args@, 0),
            *map == *old(map),
        decreases args@.len() - pos,
    {
        let key: &str = args[pos];
        let (color, next) = match parse_color(args, pos + 1, key) {
            Ok(found) => found,
            Err(e) => {
                return Err(e);
            },
        };
        let normalized = to_upper(key);
        let target = match resolve_target(normalized.as_str()) {
            Some(t) => t,
            None => {
                return Err(UserError::new(ErrorKind::InvalidKeyName, key));
            },
        };
        match assign(&mut work, target, color) {
            Ok(()) => {},
            Err(e) => {
                return Err(e);
            },
        }
        pos = next;
    }
    *map = work;
    Ok(())
}

} // verus!
