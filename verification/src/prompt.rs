//! Assembly of the child's full input payload: instruction blocks, when
//! present and non-empty, then the base prompt, separated by blank lines.

use vstd::prelude::*;
use vstd::string::*;
use crate::data::{SessionConfig, SessionConfigModel};

verus! {

/// `parts` joined with `sep` between consecutive parts.
pub open spec fn joined(parts: Seq<Seq<char>>, sep: Seq<char>) -> Seq<char>
    decreases parts.len(),
{
    if parts.len() == 0 {
        Seq::empty()
    } else if parts.len() == 1 {
        parts[0]
    } else {
        joined(parts.drop_last(), sep) + sep + parts.last()
    }
}

/// An optional instruction block as a (possibly empty) run of parts: present
/// and non-empty yields one part, anything else none.
pub open spec fn opt_part(o: Option<Seq<char>>) -> Seq<Seq<char>> {
    match o {
        Option::Some(s) => if s.len() > 0 {
            seq![s]
        } else {
            Seq::empty()
        },
        Option::None => Seq::empty(),
    }
}

/// The instruction blocks of a configuration, in order: system, developer,
/// user; each only when present and non-empty.
pub open spec fn instruction_parts(c: SessionConfigModel) -> Seq<Seq<char>> {
    opt_part(c.instructions) + opt_part(c.developer_instructions) + opt_part(c.user_instructions)
}

/// The full input payload: the instruction blocks, then the base prompt,
/// joined with blank lines.
pub open spec fn full_prompt(config: Option<SessionConfigModel>, prompt: Seq<char>) -> Seq<char> {
    let parts = match config {
        Option::Some(c) => instruction_parts(c),
        Option::None => Seq::empty(),
    };
    joined(parts.push(prompt), "\n\n"@)
}

/// Joins `parts` with `sep` between consecutive parts.
pub fn join_strings(parts: &Vec<String>, sep: &str) -> (r: String)
    ensures
        r@ == joined(parts@.map_values(|s: String| s@), sep@),
{
    let ghost m = parts@.map_values(|s: String| s@);
    let mut out = String::new();
    let mut i: usize = 0;
    while i < parts.len()
        invariant
            i <= parts.len(),
            m == parts@.map_values(|s: String| s@),
            out@ == joined(m.take(i as int), sep@),
        decreases parts.len() - i,
    {
        proof {
            assert(m.take(i + 1).drop_last() =~= m.take(i as int));
            assert(m.take(i + 1).last() == m[i as int]);
        }
        if i > 0 {
            out.append(sep);
        }
        out.append(parts[i].as_str());
        i = i + 1;
    }
    proof {
        assert(m.take(parts.len() as int) =~= m);
    }
    out
}

fn push_if_nonempty(parts: &mut Vec<String>, block: &Option<String>)
    ensures
        final(parts)@.map_values(|s: String| s@) == old(parts)@.map_values(|s: String| s@)
            + opt_part(crate::data::opt_view(*block)),
{
    let ghost before = parts@.map_values(|s: String| s@);
    match block {
        Option::Some(s) => {
            if !s.as_str().is_empty() {
                parts.push(s.clone());
            }
        },
        Option::None => {},
    }
    assert(parts@.map_values(|s: String| s@) =~= before + opt_part(crate::data::opt_view(
        *block,
    )));
}

/// Builds the payload written to the child's input channel: system,
/// developer and user instructions (each only when present and non-empty),
/// then the base prompt, separated by blank lines.
pub fn build_full_prompt(prompt: &str, config: Option<&SessionConfig>) -> (r: String)
    ensures
        r@ == full_prompt(
            match config {
                Option::Some(c) => Option::Some(c@),
                Option::None => Option::None,
            },
            prompt@,
        ),
{
    let mut parts: Vec<String> = Vec::new();
    match config {
        Option::Some(c) => {
            push_if_nonempty(&mut parts, &c.instructions);
            push_if_nonempty(&mut parts, &c.developer_instructions);
            push_if_nonempty(&mut parts, &c.user_instructions);
        },
        Option::None => {},
    }
    parts.push(prompt.to_owned());
    proof {
        let cm = match config {
            Option::Some(c) => Option::Some(c@),
            Option::None => Option::None,
        };
        let spec_parts = match cm {
            Option::Some(c) => instruction_parts(c),
            Option::None => Seq::<Seq<char>>::empty(),
        };
        assert(parts@.map_values(|s: String| s@) =~= spec_parts.push(prompt@));
    }
    join_strings(&parts, "\n\n")
}

} // verus!
