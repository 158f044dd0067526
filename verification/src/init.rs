//! First-run setup: the agent presets offered and how the answers typed at
//! the prompts are read.
use vstd::prelude::*;
use crate::text::{chars_of, parse_unsigned, string_from, trim, trim_chars, views};

verus! {

/// A kind of agent the setup offers, with the capabilities it starts with.
pub struct AgentPreset {
    pub name: String,
    pub description: String,
    pub capabilities: Vec<String>,
}

/// The offered presets, in the order they are listed: name, description,
/// capabilities.
pub open spec fn preset_table() -> Seq<(Seq<char>, Seq<char>, Seq<Seq<char>>)> {
    seq![
        ("coding"@, "Code generation and review"@, seq!["inference"@, "bounty"@]),
        ("research"@, "Data analysis and summarization"@, seq!["inference"@, "knowledge"@]),
        ("inference-provider"@, "Serve models to the network"@, seq!["inference"@, "training"@]),
        ("custom"@, "Configure manually"@, Seq::<Seq<char>>::empty()),
    ]
}

/// The mathematical content of a preset.
pub open spec fn preset_view(p: AgentPreset) -> (Seq<char>, Seq<char>, Seq<Seq<char>>) {
    (p.name@, p.description@, views(p.capabilities@))
}

fn preset(name: &str, description: &str, caps: &[&str]) -> (p: AgentPreset)
    ensures
        p.name@ == name@,
        p.description@ == description@,
        p.capabilities@.len() == caps@.len(),
        forall|i: int| 0 <= i < caps@.len() ==> p.capabilities@[i]@ == caps@[i]@,
{
    let mut c: Vec<String> = Vec::new();
    let mut i: usize = 0;
    while i < caps.len()
        invariant
            i <= caps@.len(),
            c@.len() == i,
            forall|j: int| 0 <= j < i ==> c@[j]@ == caps@[j]@,
        decreases caps.len() - i,
    {
        c.push(caps[i].to_string());
        i = i + 1;
    }
    AgentPreset { name: name.to_string(), description: description.to_string(), capabilities: c }
}

/// The presets the setup offers.
pub fn presets() -> (v: Vec<AgentPreset>)
    ensures
        v@.len() == preset_table().len(),
        forall|i: int| 0 <= i < v@.len() ==> preset_view(#[trigger] v@[i]) == preset_table()[i],
{
    let mut v: Vec<AgentPreset> = Vec::new();
    v.push(preset("coding", "Code generation and review", &["inference", "bounty"]));
    v.push(preset("research", "Data analysis and summarization", &["inference", "knowledge"]));
    v.push(preset("inference-provider", "Serve models to the network", &["inference", "training"]));
    v.push(preset("custom", "Configure manually", &[]));
    proof {
        assert forall|i: int| 0 <= i < v@.len() implies preset_view(#[trigger] v@[i]) == preset_table()[i] by {
            assert(views(v@[i].capabilities@) =~= preset_table()[i].2);
        }
    }
    v
}

/// No two presets share a name.
pub proof fn law_preset_names_distinct(i: int, j: int)
    requires
        0 <= i < preset_table().len(),
        0 <= j < preset_table().len(),
        i != j,
    ensures
        preset_table()[i].0 != preset_table()[j].0,
{
    reveal_strlit("coding");
    reveal_strlit("research");
    reveal_strlit("inference-provider");
    reveal_strlit("custom");
    let t = preset_table();
    assert(t[0].0.len() == 6 && t[1].0.len() == 8 && t[2].0.len() == 18 && t[3].0.len() == 6);
    assert(t[0].0[1] == 'o' && t[3].0[1] == 'u');
}

/// The preset an answer to the choice prompt picks: the answer, trimmed,
/// must be a number from 1 to `count`; anything else picks nothing.
pub open spec fn chosen_preset(input: Seq<char>, count: nat) -> Option<nat> {
    match parse_unsigned(trim(input), usize::MAX as int) {
        Some(n) => if 1 <= n <= count { Some((n - 1) as nat) } else { None },
        None => None,
    }
}

fn trimmed(input: &str) -> (s: String)
    ensures
        s@ == trim(input@),
{
    let cs = chars_of(input);
    let t = trim_chars(cs.as_slice());
    string_from(t.as_slice())
}

/// The index of the preset an answer picks, if any.
pub fn preset_choice(input: &str, count: usize) -> (r: Option<usize>)
    ensures
        match chosen_preset(input@, count as nat) {
            Some(k) => r == Some(k as usize),
            None => r is None,
        },
{
    let t = trimmed(input);
    match crate::text::parse_unsigned_max(t.as_str(), usize::MAX as u64) {
        Some(n) => {
            if 1 <= n && n <= count as u64 {
                Some((n - 1) as usize)
            } else {
                None
            }
        },
        None => None,
    }
}

/// The agent name an answer to the name prompt gives: the answer trimmed, or
/// the default when that is empty.
pub fn agent_name(input: &str, default: &str) -> (name: String)
    ensures
        trim(input@).len() == 0 ==> name@ == default@,
        trim(input@).len() > 0 ==> name@ == trim(input@),
{
    let t = trimmed(input);
    if t.as_str().is_empty() {
        default.to_string()
    } else {
        t
    }
}

} // verus!
