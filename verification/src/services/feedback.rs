//! Prompts for the learning-assistance requests (correction, translation,
//! polishing, session summary). Each is sent as an independent request and
//! does not enter the conversation history.

use vstd::prelude::*;
use crate::cli::opt_view;
use crate::services::llm::{chat_message, ChatMessage};
use crate::text;

verus! {

/// A saved correction, as the summary prompt lists it.
#[derive(Debug, Clone)]
pub struct SummaryCorrection {
    pub original_text: String,
    pub corrected_text: String,
    pub explanation: Option<String>,
    pub better_expression: Option<String>,
}

/// The practice context a summary is written in.
#[derive(Debug, Clone)]
pub struct SummaryContext {
    pub practice_mode_name: String,
    pub practice_mode_description: String,
    pub scenario_name: Option<String>,
    pub scenario_description: Option<String>,
    pub recent_corrections: Vec<SummaryCorrection>,
}

pub const CORRECTION_SYSTEM: &'static str = r#"You are an expert English language tutor. Analyze the user's text and return ONLY valid JSON (no markdown fences). Be encouraging but thorough."#;
pub const CORRECTION_HEAD: &'static str = r#"Analyze the following English text for grammar, word choice, and naturalness.

Return a JSON object with EXACTLY these fields:
- "hasErrors": boolean - whether any issues were found
- "corrected": string - the corrected version (identical to original if no errors)
- "explanation": string - brief explanation of all changes, in Chinese (中文)
- "betterExpression": string - a more natural/native way to express the same meaning
- "vocabulary": array of objects with "word" and "meaning" (Chinese) for useful vocabulary

Text to analyze: ""#;
pub const CORRECTION_TAIL: &'static str = r#""

Respond ONLY with valid JSON."#;

pub const TRANSLATION_SYSTEM: &'static str = r#"You are a professional translator. Return ONLY valid JSON (no markdown fences)."#;
pub const TRANSLATION_HEAD: &'static str = r#"Translate the following text to "#;
pub const TRANSLATION_NOTES: &'static str = r#".

Return a JSON object with EXACTLY these fields:
- "translation": string - the translated text
- "notes": string - any important nuances, cultural context, or alternative translations (in "#;
pub const TRANSLATION_TEXT: &'static str = r#")

Text: ""#;
pub const TRANSLATION_TAIL: &'static str = r#""

Respond ONLY with valid JSON."#;

pub const POLISH_SYSTEM: &'static str = r#"You are a native English speaker helping a learner improve their expression. Return ONLY valid JSON (no markdown fences)."#;
pub const POLISH_HEAD: &'static str = r#"Improve the following English text to sound more natural and native-like.

Return a JSON object with EXACTLY these fields:
- "polished": string - the improved version
- "changes": array of objects, each with:
  - "original": string - the original phrase
  - "improved": string - the improved phrase
  - "reason": string - why this change makes it better (in Chinese 中文)

Text: ""#;
pub const POLISH_TAIL: &'static str = r#""

Respond ONLY with valid JSON."#;

pub const SUMMARY_SYSTEM: &'static str = r#"You are an English learning coach. Analyze the student's conversation and provide a learning report. Return ONLY valid JSON (no markdown fences)."#;
pub const SUMMARY_HEAD: &'static str = r#"Analyze this English conversation between a student (user) and an AI tutor (assistant).

Practice context:
"#;
pub const SUMMARY_MIDDLE: &'static str = r#"

Generate a learning report as a JSON object with EXACTLY these fields:
- "overallScore": number (1-10) - overall English proficiency shown
- "scoreBreakdown": object with numeric 1-10 scores for "fluency", "grammar", "vocabulary", "coherence", and optional "pronunciation"
- "strengths": array of strings - what the student did well (in Chinese 中文)
- "improvements": array of strings - areas to improve (in Chinese 中文)
- "commonErrors": array of objects with "error" and "correction" - recurring mistakes
- "vocabularyUsed": number - approximate count of unique words used
- "suggestedTopics": array of strings - recommended topics for next practice
- "nextDrills": array of strings - 2-4 concrete short drills the student should practice next

Conversation:
"#;
pub const SUMMARY_TAIL: &'static str = r#"

Respond ONLY with valid JSON."#;

/// A two-message prompt: the system message `system`, then the user message
/// `user`.
pub open spec fn is_prompt(r: Seq<ChatMessage>, system: Seq<char>, user: Seq<char>) -> bool {
    &&& r.len() == 2
    &&& r[0].role@ == "system"@
    &&& r[0].content@ == system
    &&& r[1].role@ == "user"@
    &&& r[1].content@ == user
}

fn two_messages(system: &str, user: String) -> (r: Vec<ChatMessage>)
    ensures
        is_prompt(r@, system@, user@),
{
    let mut v: Vec<ChatMessage> = Vec::new();
    v.push(chat_message("system", text::owned(system)));
    v.push(chat_message("user", user));
    v
}

/// The correction request: the text is analyzed for grammar, word choice
/// and naturalness, and the answer is to be JSON with `hasErrors`,
/// `corrected`, `explanation`, `betterExpression` and `vocabulary`.
pub fn build_correction_prompt(user_text: &str) -> (r: Vec<ChatMessage>)
    ensures
        is_prompt(r@, CORRECTION_SYSTEM@, CORRECTION_HEAD@ + user_text@ + CORRECTION_TAIL@),
{
    let mut u = text::owned(CORRECTION_HEAD);
    u.append(user_text);
    u.append(CORRECTION_TAIL);
    two_messages(CORRECTION_SYSTEM, u)
}

/// The translation request: `text` into `target_lang`, with notes in the
/// target language.
pub fn build_translation_prompt(text: &str, target_lang: &str) -> (r: Vec<ChatMessage>)
    ensures
        is_prompt(
            r@,
            TRANSLATION_SYSTEM@,
            TRANSLATION_HEAD@ + target_lang@ + TRANSLATION_NOTES@ + target_lang@ + TRANSLATION_TEXT@ + text@
                + TRANSLATION_TAIL@,
        ),
{
    let mut u = text::owned(TRANSLATION_HEAD);
    u.append(target_lang);
    u.append(TRANSLATION_NOTES);
    u.append(target_lang);
    u.append(TRANSLATION_TEXT);
    u.append(text);
    u.append(TRANSLATION_TAIL);
    two_messages(TRANSLATION_SYSTEM, u)
}

/// The polishing request: the text made more native-sounding, each change
/// given with its reason.
pub fn build_polish_prompt(user_text: &str) -> (r: Vec<ChatMessage>)
    ensures
        is_prompt(r@, POLISH_SYSTEM@, POLISH_HEAD@ + user_text@ + POLISH_TAIL@),
{
    let mut u = text::owned(POLISH_HEAD);
    u.append(user_text);
    u.append(POLISH_TAIL);
    two_messages(POLISH_SYSTEM, u)
}

/// A conversation turn as the summary prompt shows it: `role: content`.
pub open spec fn turn_line(turn: (String, String)) -> Seq<char> {
    turn.0@ + ": "@ + turn.1@
}

/// The conversation as the summary prompt shows it: one turn per line, in
/// order.
pub open spec fn conversation_text(turns: Seq<(String, String)>) -> Seq<char> {
    text::join(turns.map_values(|t: (String, String)| turn_line(t)), "\n"@)
}

/// An optional note, or `default` when it is absent or blank.
pub open spec fn note_or(o: Option<Seq<char>>, default: Seq<char>) -> Seq<char> {
    match o {
        Some(v) => if text::trim(v).len() > 0 {
            v
        } else {
            default
        },
        None => default,
    }
}

/// How a saved correction is listed.
pub open spec fn correction_line(c: SummaryCorrection) -> Seq<char> {
    "- original: "@ + c.original_text@ + "; corrected: "@ + c.corrected_text@ + "; note: "@
        + note_or(opt_view(c.explanation), "no explanation"@) + "; better expression: "@
        + note_or(opt_view(c.better_expression), "none"@)
}

/// The lines that describe the scenario.
pub open spec fn scenario_lines(c: SummaryContext) -> Seq<Seq<char>> {
    match c.scenario_name {
        Some(name) => match c.scenario_description {
            Some(d) => seq!["Scenario: "@ + name@, "Scenario detail: "@ + d@],
            None => seq!["Scenario: "@ + name@],
        },
        None => seq!["Scenario: none"@],
    }
}

/// The lines that list the saved corrections.
pub open spec fn correction_lines(c: SummaryContext) -> Seq<Seq<char>> {
    if c.recent_corrections@.len() == 0 {
        seq!["Saved corrections: none"@]
    } else {
        seq!["Saved corrections:"@] + c.recent_corrections@.map_values(|x: SummaryCorrection| correction_line(x))
    }
}

/// The practice context as the summary prompt states it: the mode and its
/// goal, the scenario, and the saved corrections; Free Talk with neither
/// scenario nor corrections when there is no context.
pub open spec fn summary_context_text(context: Option<SummaryContext>) -> Seq<char> {
    match context {
        None => "Practice mode: Free Talk\nScenario: none\nSaved corrections: none"@,
        Some(c) => text::join(
            seq!["Practice mode: "@ + c.practice_mode_name@, "Mode goal: "@ + c.practice_mode_description@]
                + scenario_lines(c) + correction_lines(c),
            "\n"@,
        ),
    }
}

/// An optional note, or `default` when it is absent or blank.
fn note_text(o: &Option<String>, default: &str) -> (r: String)
    ensures
        r@ == note_or(opt_view(*o), default@),
{
    match o {
        Some(v) => {
            let t = text::trim_str(v.as_str());
            if t.unicode_len() > 0 {
                v.clone()
            } else {
                text::owned(default)
            }
        },
        None => text::owned(default),
    }
}

fn correction_text(c: &SummaryCorrection) -> (r: String)
    ensures
        r@ == correction_line(*c),
{
    let mut s = text::owned("- original: ");
    s.append(c.original_text.as_str());
    s.append("; corrected: ");
    s.append(c.corrected_text.as_str());
    s.append("; note: ");
    let note = note_text(&c.explanation, "no explanation");
    s.append(note.as_str());
    s.append("; better expression: ");
    let better = note_text(&c.better_expression, "none");
    s.append(better.as_str());
    s
}

/// The practice context as the summary prompt states it.
pub fn build_summary_context_text(context: Option<&SummaryContext>) -> (r: String)
    ensures
        r@ == summary_context_text(match context {
            Some(c) => Some(*c),
            None => None,
        }),
{
    let c = match context {
        None => return text::owned("Practice mode: Free Talk\nScenario: none\nSaved corrections: none"),
        Some(c) => c,
    };
    let ghost fixed = seq!["Practice mode: "@ + c.practice_mode_name@, "Mode goal: "@ + c.practice_mode_description@];
    let mut lines: Vec<String> = Vec::new();
    lines.push(crate::error::prefixed("Practice mode: ", c.practice_mode_name.as_str()));
    lines.push(crate::error::prefixed("Mode goal: ", c.practice_mode_description.as_str()));
    match &c.scenario_name {
        Some(name) => {
            lines.push(crate::error::prefixed("Scenario: ", name.as_str()));
            if let Some(d) = &c.scenario_description {
                lines.push(crate::error::prefixed("Scenario detail: ", d.as_str()));
            }
        },
        None => {
            lines.push(text::owned("Scenario: none"));
        },
    }
    let ghost head = fixed + scenario_lines(*c);
    assert(lines@.map_values(|p: String| p@) =~= head);
    if c.recent_corrections.len() == 0 {
        lines.push(text::owned("Saved corrections: none"));
    } else {
        lines.push(text::owned("Saved corrections:"));
        let ghost start = lines@.map_values(|p: String| p@);
        let mut i: usize = 0;
        while i < c.recent_corrections.len()
            invariant
                i <= c.recent_corrections@.len(),
                lines@.map_values(|p: String| p@) == start + c.recent_corrections@.subrange(0, i as int).map_values(
                    |x: SummaryCorrection| correction_line(x),
                ),
            decreases c.recent_corrections.len() - i,
        {
            let line = correction_text(&c.recent_corrections[i]);
            let ghost prev = lines@.map_values(|p: String| p@);
            assert(line@ == correction_line(c.recent_corrections@[i as int]));
            lines.push(line);
            assert(lines@.map_values(|p: String| p@) =~= prev.push(correction_line(c.recent_corrections@[i as int])));
            assert(c.recent_corrections@.subrange(0, i + 1) =~= c.recent_corrections@.subrange(0, i as int).push(
                c.recent_corrections@[i as int],
            ));
            i = i + 1;
            assert(lines@.map_values(|p: String| p@) =~= start + c.recent_corrections@.subrange(0, i as int).map_values(
                |x: SummaryCorrection| correction_line(x),
            ));
        }
        assert(c.recent_corrections@.subrange(0, i as int) =~= c.recent_corrections@);
    }
    assert(lines@.map_values(|p: String| p@) =~= fixed + scenario_lines(*c) + correction_lines(*c));
    text::join_strings(&lines, "\n")
}

/// The summary request: the practice context, then the conversation, one
/// `role: content` line per turn in order; the answer is to be a JSON
/// learning report.
pub fn build_summary_prompt(conversation_messages: &[(String, String)], context: Option<&SummaryContext>) -> (r: Vec<ChatMessage>)
    ensures
        is_prompt(
            r@,
            SUMMARY_SYSTEM@,
            SUMMARY_HEAD@ + summary_context_text(match context {
                Some(c) => Some(*c),
                None => None,
            }) + SUMMARY_MIDDLE@ + conversation_text(conversation_messages@) + SUMMARY_TAIL@,
        ),
{
    let mut lines: Vec<String> = Vec::new();
    let mut i: usize = 0;
    while i < conversation_messages.len()
        invariant
            i <= conversation_messages@.len(),
            lines@.map_values(|p: String| p@) == conversation_messages@.subrange(0, i as int).map_values(
                |t: (String, String)| turn_line(t),
            ),
        decreases conversation_messages.len() - i,
    {
        let mut line = conversation_messages[i].0.clone();
        line.append(": ");
        line.append(conversation_messages[i].1.as_str());
        assert(line@ == turn_line(conversation_messages@[i as int]));
        let ghost prev = lines@.map_values(|p: String| p@);
        lines.push(line);
        assert(lines@.map_values(|p: String| p@) =~= prev.push(turn_line(conversation_messages@[i as int])));
        assert(conversation_messages@.subrange(0, i + 1) =~= conversation_messages@.subrange(0, i as int).push(
            conversation_messages@[i as int],
        ));
        i = i + 1;
        assert(lines@.map_values(|p: String| p@) =~= conversation_messages@.subrange(0, i as int).map_values(
            |t: (String, String)| turn_line(t),
        ));
    }
    assert(conversation_messages@.subrange(0, i as int) =~= conversation_messages@);
    let conversation = text::join_strings(&lines, "\n");
    let context_text = build_summary_context_text(context);
    let mut u = text::owned(SUMMARY_HEAD);
    u.append(context_text.as_str());
    u.append(SUMMARY_MIDDLE);
    u.append(conversation.as_str());
    u.append(SUMMARY_TAIL);
    two_messages(SUMMARY_SYSTEM, u)
}

} // verus!
