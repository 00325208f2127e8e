//! What the character remembers of the user, and how the relationship with
//! the character is described, as text for the system prompt.

use vstd::prelude::*;
use crate::cli::opt_view;
use crate::repositories::memory::RelationshipStateRecord;
use crate::text;

verus! {

/// The most memory facts put into one prompt (the query that fetches them
/// is limited to this many).
pub const MAX_MEMORY_INJECTION_FACTS: usize = 20;

/// What the prompt needs of a stored memory fact.
#[derive(Debug, Clone)]
pub struct MemoryNote {
    pub fact_type: String,
    pub content: String,
    pub is_visible: bool,
}

/// The label a fact type is shown under.
pub open spec fn fact_label(fact_type: Seq<char>) -> Seq<char> {
    if fact_type == "preference"@ {
        "Preference"@
    } else if fact_type == "event"@ {
        "Event"@
    } else if fact_type == "commitment"@ {
        "Promise/Commitment"@
    } else if fact_type == "trait"@ {
        "Trait"@
    } else {
        "Note"@
    }
}

/// How one fact is listed.
pub open spec fn fact_line(f: MemoryNote) -> Seq<char> {
    "- ["@ + fact_label(f.fact_type@) + "] "@ + f.content@
}

/// The lines of the visible facts, in order.
pub open spec fn visible_lines(facts: Seq<MemoryNote>) -> Seq<Seq<char>>
    decreases facts.len(),
{
    if facts.len() == 0 {
        Seq::<Seq<char>>::empty()
    } else {
        let prev = visible_lines(facts.drop_last());
        if facts.last().is_visible {
            prev.push(fact_line(facts.last()))
        } else {
            prev
        }
    }
}

/// The memory block of the prompt: nothing when no fact was found, else a
/// heading followed by one line per visible fact.
pub open spec fn memory_injection(facts: Seq<MemoryNote>) -> Option<Seq<char>> {
    if facts.len() == 0 {
        None
    } else {
        Some(text::join(seq!["You remember the following about the user:"@] + visible_lines(facts), "\n"@))
    }
}

/// A hidden fact adds nothing to the memory block: the block of facts
/// followed by a hidden fact is the block of those facts alone.
pub proof fn lemma_hidden_fact_is_not_injected(facts: Seq<MemoryNote>, hidden: MemoryNote)
    requires
        facts.len() > 0,
        !hidden.is_visible,
    ensures
        memory_injection(facts.push(hidden)) == memory_injection(facts),
{
    assert(facts.push(hidden).drop_last() =~= facts);
}

/// A visible fact adds exactly one line to the end of the block: `- [`, its
/// label, `] ` and its content.
pub proof fn lemma_visible_fact_adds_its_line(facts: Seq<MemoryNote>, shown: MemoryNote)
    requires
        facts.len() > 0,
        shown.is_visible,
    ensures
        memory_injection(facts.push(shown)) == Some(
            memory_injection(facts)->Some_0 + "\n- ["@ + fact_label(shown.fact_type@) + "] "@ + shown.content@,
        ),
{
    let all = facts.push(shown);
    assert(all.drop_last() =~= facts);
    let head = seq!["You remember the following about the user:"@];
    let parts = head + visible_lines(facts);
    assert(head + visible_lines(all) =~= parts.push(fact_line(shown)));
    assert(parts.push(fact_line(shown)).drop_last() =~= parts);
    reveal_strlit("\n- [");
    reveal_strlit("\n");
    reveal_strlit("- [");
    assert("\n"@ + "- ["@ =~= "\n- ["@);
    assert(text::join(parts.push(fact_line(shown)), "\n"@) == text::join(parts, "\n"@) + "\n"@ + fact_line(shown));
    assert(text::join(parts, "\n"@) + "\n"@ + fact_line(shown) =~= text::join(parts, "\n"@) + "\n- ["@
        + fact_label(shown.fact_type@) + "] "@ + shown.content@);
}

/// The first fact starts the block: the heading alone when the fact is
/// hidden, else the heading and the fact's line.
pub proof fn lemma_first_fact(f: MemoryNote)
    ensures
        memory_injection(seq![f]) == Some(
            if f.is_visible {
                "You remember the following about the user:\n- ["@ + fact_label(f.fact_type@) + "] "@ + f.content@
            } else {
                "You remember the following about the user:"@
            },
        ),
{
    let one = seq![f];
    assert(one.drop_last() =~= Seq::<MemoryNote>::empty());
    assert(one.last() == f);
    assert(visible_lines(Seq::<MemoryNote>::empty()) == Seq::<Seq<char>>::empty());
    assert(visible_lines(one) == if f.is_visible {
        Seq::<Seq<char>>::empty().push(fact_line(f))
    } else {
        Seq::<Seq<char>>::empty()
    });
    let head = seq!["You remember the following about the user:"@];
    reveal_strlit("You remember the following about the user:");
    reveal_strlit("You remember the following about the user:\n- [");
    reveal_strlit("\n");
    reveal_strlit("- [");
    if f.is_visible {
        let parts = head.push(fact_line(f));
        assert(head + visible_lines(one) =~= parts);
        assert(parts.drop_last() =~= head);
        assert(parts.len() == 2);
        assert(parts.last() == fact_line(f));
        assert(text::join(head, "\n"@) == head[0]);
        assert(text::join(parts, "\n"@) == text::join(parts.drop_last(), "\n"@) + "\n"@ + parts.last());
        assert(text::join(parts, "\n"@) == head[0] + "\n"@ + fact_line(f));
        assert(head[0] + "\n"@ + fact_line(f) =~= "You remember the following about the user:\n- ["@
            + fact_label(f.fact_type@) + "] "@ + f.content@);
    } else {
        assert(head + visible_lines(one) =~= head);
    }
}

fn label_for(fact_type: &str) -> (r: &'static str)
    ensures
        r@ == fact_label(fact_type@),
{
    if text::str_eq(fact_type, "preference") {
        "Preference"
    } else if text::str_eq(fact_type, "event") {
        "Event"
    } else if text::str_eq(fact_type, "commitment") {
        "Promise/Commitment"
    } else if text::str_eq(fact_type, "trait") {
        "Trait"
    } else {
        "Note"
    }
}

/// The memory block for the facts fetched for a character.
pub fn build_memory_prompt_injection(facts: &[MemoryNote]) -> (r: Option<String>)
    ensures
        opt_view(r) == memory_injection(facts@),
{
    if facts.len() == 0 {
        return None;
    }
    let mut lines: Vec<String> = Vec::new();
    lines.push(text::owned("You remember the following about the user:"));
    let mut i: usize = 0;
    while i < facts.len()
        invariant
            i <= facts@.len(),
            lines@.map_values(|p: String| p@) == seq!["You remember the following about the user:"@] + visible_lines(
                facts@.subrange(0, i as int),
            ),
        decreases facts.len() - i,
    {
        let ghost before = lines@.map_values(|p: String| p@);
        assert(facts@.subrange(0, i + 1).drop_last() =~= facts@.subrange(0, i as int));
        if facts[i].is_visible {
            let mut line = text::owned("- [");
            line.append(label_for(facts[i].fact_type.as_str()));
            line.append("] ");
            line.append(facts[i].content.as_str());
            lines.push(line);
            assert(lines@.map_values(|p: String| p@) =~= before.push(fact_line(facts@[i as int])));
        }
        i = i + 1;
    }
    assert(facts@.subrange(0, i as int) =~= facts@);
    Some(text::join_strings(&lines, "\n"))
}

/// Whether a stored JSON text says something: present, non-empty, not `null`.
pub open spec fn json_note(o: Option<Seq<char>>) -> Option<Seq<char>> {
    match o {
        Some(v) => if v.len() > 0 && v != "null"@ {
            Some(v)
        } else {
            None
        },
        None => None,
    }
}

/// A line, when there is something to say.
pub open spec fn line_if(label: Seq<char>, o: Option<Seq<char>>) -> Seq<Seq<char>> {
    match o {
        Some(v) => seq![label + v],
        None => Seq::<Seq<char>>::empty(),
    }
}

/// The learning goal, when it is not blank.
pub open spec fn goal_note(o: Option<Seq<char>>) -> Option<Seq<char>> {
    match o {
        Some(v) => if text::trim(v).len() > 0 {
            Some(v)
        } else {
            None
        },
        None => None,
    }
}

/// How a relationship is described to the character: intimacy and trust,
/// then the story stage, the learning goal, the user's preferences and the
/// boundaries, each only when there is one.
pub open spec fn relationship_lines(s: RelationshipStateRecord) -> Seq<Seq<char>> {
    seq![
        "Current relationship: intimacy="@ + text::signed_dec(s.intimacy_level as int) + ", trust="@
            + text::signed_dec(s.trust_level as int),
    ] + line_if("Story stage: "@, opt_view(s.plot_stage)) + line_if("Learning goal: "@, goal_note(opt_view(s.learning_goal)))
        + line_if("User preferences: "@, json_note(opt_view(s.user_preferences))) + line_if(
        "Boundaries: "@,
        json_note(opt_view(s.boundaries)),
    )
}

fn json_text(o: &Option<String>) -> (r: Option<&String>)
    ensures
        match r {
            Some(v) => json_note(opt_view(*o)) == Some(v@),
            None => json_note(opt_view(*o)) is None,
        },
{
    match o {
        Some(v) => if v.as_str().unicode_len() > 0 && !text::str_eq(v.as_str(), "null") {
            Some(v)
        } else {
            None
        },
        None => None,
    }
}

/// The relationship block of the prompt, when a relationship is recorded.
pub fn build_relationship_context(state: Option<&RelationshipStateRecord>) -> (r: Option<String>)
    ensures
        match state {
            None => r is None,
            Some(s) => r is Some && r->Some_0@ == text::join(relationship_lines(*s), "\n"@),
        },
{
    let s = match state {
        None => return None,
        Some(s) => s,
    };
    let mut parts: Vec<String> = Vec::new();
    let mut first = text::owned("Current relationship: intimacy=");
    let a = text::i64_to_string(s.intimacy_level);
    first.append(a.as_str());
    first.append(", trust=");
    let b = text::i64_to_string(s.trust_level);
    first.append(b.as_str());
    parts.push(first);
    let ghost base = parts@.map_values(|p: String| p@);
    if let Some(stage) = &s.plot_stage {
        parts.push(crate::error::prefixed("Story stage: ", stage.as_str()));
    }
    let ghost p1 = base + line_if("Story stage: "@, opt_view(s.plot_stage));
    assert(parts@.map_values(|p: String| p@) =~= p1);
    if let Some(goal) = &s.learning_goal {
        if text::trim_str(goal.as_str()).unicode_len() > 0 {
            parts.push(crate::error::prefixed("Learning goal: ", goal.as_str()));
        }
    }
    let ghost p2 = p1 + line_if("Learning goal: "@, goal_note(opt_view(s.learning_goal)));
    assert(parts@.map_values(|p: String| p@) =~= p2);
    if let Some(prefs) = json_text(&s.user_preferences) {
        parts.push(crate::error::prefixed("User preferences: ", prefs.as_str()));
    }
    let ghost p3 = p2 + line_if("User preferences: "@, json_note(opt_view(s.user_preferences)));
    assert(parts@.map_values(|p: String| p@) =~= p3);
    if let Some(b) = json_text(&s.boundaries) {
        parts.push(crate::error::prefixed("Boundaries: ", b.as_str()));
    }
    assert(parts@.map_values(|p: String| p@) =~= relationship_lines(*s));
    Some(text::join_strings(&parts, "\n"))
}

/// The record a character's relationship starts from: no intimacy, no
/// trust, nothing else known.
pub fn new_relationship_state(id: String, character_id: &str, now: String) -> (r: RelationshipStateRecord)
    ensures
        r.id@ == id@,
        r.character_id@ == character_id@,
        r.intimacy_level == 0,
        r.trust_level == 0,
        r.plot_stage is None,
        r.learning_goal is None,
        r.user_preferences is None,
        r.boundaries is None,
        r.commitments is None,
        r.updated_at@ == now@,
{
    RelationshipStateRecord {
        id,
        character_id: text::owned(character_id),
        intimacy_level: 0,
        trust_level: 0,
        plot_stage: None,
        learning_goal: None,
        user_preferences: None,
        boundaries: None,
        commitments: None,
        updated_at: now,
    }
}

/// The record a character's relationship starts from, with a fresh random
/// id and the current time (of which nothing is stated): no intimacy, no
/// trust, nothing else known.
pub fn fresh_relationship_state(character_id: &str) -> (r: RelationshipStateRecord)
    ensures
        r.character_id@ == character_id@,
        r.intimacy_level == 0,
        r.trust_level == 0,
        r.plot_stage is None,
        r.learning_goal is None,
        r.user_preferences is None,
        r.boundaries is None,
        r.commitments is None,
{
    let id = crate::fresh::new_uuid();
    let now = crate::fresh::now_rfc3339();
    new_relationship_state(id, character_id, now)
}

} // verus!
