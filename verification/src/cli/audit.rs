//! Audit events written by the CLI's write operations, and the filters that
//! select among them.

use vstd::prelude::*;
use crate::cli::{clone_opt, opt_view};
use crate::text;

verus! {

/// One line of the JSONL audit log.
#[derive(Debug, Clone)]
pub struct AuditEvent {
    pub timestamp: String,
    pub operation: String,
    pub actor: String,
    pub db_path: Option<String>,
    pub target_profile_id: Option<String>,
    pub target_session_id: Option<String>,
    pub target_message_id: Option<String>,
    pub target_character_id: Option<String>,
    pub previous_profile_id: Option<String>,
    pub result: String,
    pub details: String,
}

/// Criteria for selecting audit events; an absent criterion selects everything.
#[derive(Debug, Clone)]
pub struct AuditFilter {
    pub operation: Option<String>,
    pub actor: Option<String>,
    pub result: Option<String>,
    pub target_profile_id: Option<String>,
    pub target_session_id: Option<String>,
    pub target_message_id: Option<String>,
    pub target_character_id: Option<String>,
}

pub struct AuditFilterView {
    pub operation: Option<Seq<char>>,
    pub actor: Option<Seq<char>>,
    pub result: Option<Seq<char>>,
    pub target_profile_id: Option<Seq<char>>,
    pub target_session_id: Option<Seq<char>>,
    pub target_message_id: Option<Seq<char>>,
    pub target_character_id: Option<Seq<char>>,
}

impl View for AuditFilter {
    type V = AuditFilterView;

    open spec fn view(&self) -> AuditFilterView {
        AuditFilterView {
            operation: opt_view(self.operation),
            actor: opt_view(self.actor),
            result: opt_view(self.result),
            target_profile_id: opt_view(self.target_profile_id),
            target_session_id: opt_view(self.target_session_id),
            target_message_id: opt_view(self.target_message_id),
            target_character_id: opt_view(self.target_character_id),
        }
    }
}

impl Default for AuditFilter {
    fn default() -> (f: Self)
        ensures
            f.is_empty_spec(),
    {
        AuditFilter {
            operation: None,
            actor: None,
            result: None,
            target_profile_id: None,
            target_session_id: None,
            target_message_id: None,
            target_character_id: None,
        }
    }
}

/// A filter value as given by the user: trimmed, and absent when blank.
pub open spec fn normalized_filter_value(value: Option<Seq<char>>) -> Option<Seq<char>> {
    match value {
        Some(v) => if text::trim(v).len() == 0 {
            None
        } else {
            Some(text::trim(v))
        },
        None => None,
    }
}

pub fn normalize_optional_filter_value(value: Option<String>) -> (r: Option<String>)
    ensures
        opt_view(r) == normalized_filter_value(opt_view(value)),
{
    match value {
        Some(v) => {
            let t = text::trim_string(v.as_str());
            if t.unicode_len() == 0 {
                None
            } else {
                Some(t)
            }
        },
        None => None,
    }
}

pub open spec fn filter_from(
    operation: Option<Seq<char>>,
    actor: Option<Seq<char>>,
    result: Option<Seq<char>>,
    target_profile_id: Option<Seq<char>>,
    target_session_id: Option<Seq<char>>,
    target_message_id: Option<Seq<char>>,
    target_character_id: Option<Seq<char>>,
) -> AuditFilterView {
    AuditFilterView {
        operation: normalized_filter_value(operation),
        actor: normalized_filter_value(actor),
        result: normalized_filter_value(result),
        target_profile_id: normalized_filter_value(target_profile_id),
        target_session_id: normalized_filter_value(target_session_id),
        target_message_id: normalized_filter_value(target_message_id),
        target_character_id: normalized_filter_value(target_character_id),
    }
}

pub fn build_audit_filter(
    operation: Option<String>,
    actor: Option<String>,
    result: Option<String>,
    target_profile_id: Option<String>,
    target_session_id: Option<String>,
    target_message_id: Option<String>,
    target_character_id: Option<String>,
) -> (f: AuditFilter)
    ensures
        f@ == filter_from(
            opt_view(operation),
            opt_view(actor),
            opt_view(result),
            opt_view(target_profile_id),
            opt_view(target_session_id),
            opt_view(target_message_id),
            opt_view(target_character_id),
        ),
{
    AuditFilter {
        operation: normalize_optional_filter_value(operation),
        actor: normalize_optional_filter_value(actor),
        result: normalize_optional_filter_value(result),
        target_profile_id: normalize_optional_filter_value(target_profile_id),
        target_session_id: normalize_optional_filter_value(target_session_id),
        target_message_id: normalize_optional_filter_value(target_message_id),
        target_character_id: normalize_optional_filter_value(target_character_id),
    }
}

impl AuditEvent {
    /// A field-by-field copy.
    pub fn duplicate(&self) -> (r: AuditEvent)
        ensures
            r == *self,
    {
        AuditEvent {
            timestamp: self.timestamp.clone(),
            operation: self.operation.clone(),
            actor: self.actor.clone(),
            db_path: clone_opt(&self.db_path),
            target_profile_id: clone_opt(&self.target_profile_id),
            target_session_id: clone_opt(&self.target_session_id),
            target_message_id: clone_opt(&self.target_message_id),
            target_character_id: clone_opt(&self.target_character_id),
            previous_profile_id: clone_opt(&self.previous_profile_id),
            result: self.result.clone(),
            details: self.details.clone(),
        }
    }
}

impl AuditFilter {
    /// A field-by-field copy.
    pub fn duplicate(&self) -> (r: AuditFilter)
        ensures
            r == *self,
    {
        AuditFilter {
            operation: clone_opt(&self.operation),
            actor: clone_opt(&self.actor),
            result: clone_opt(&self.result),
            target_profile_id: clone_opt(&self.target_profile_id),
            target_session_id: clone_opt(&self.target_session_id),
            target_message_id: clone_opt(&self.target_message_id),
            target_character_id: clone_opt(&self.target_character_id),
        }
    }

    pub open spec fn is_empty_spec(&self) -> bool {
        &&& self.operation is None
        &&& self.actor is None
        &&& self.result is None
        &&& self.target_profile_id is None
        &&& self.target_session_id is None
        &&& self.target_message_id is None
        &&& self.target_character_id is None
    }

    pub fn is_empty(&self) -> (r: bool)
        ensures
            r == self.is_empty_spec(),
    {
        self.operation.is_none() && self.actor.is_none() && self.result.is_none()
            && self.target_profile_id.is_none() && self.target_session_id.is_none()
            && self.target_message_id.is_none() && self.target_character_id.is_none()
    }
}

pub open spec fn case_insensitive_match(actual: Seq<char>, expected: Option<Seq<char>>) -> bool {
    match expected {
        Some(e) => text::eq_ignore_case(actual, e),
        None => true,
    }
}

pub open spec fn exact_match(actual: Option<Seq<char>>, expected: Option<Seq<char>>) -> bool {
    match expected {
        Some(e) => actual == Some(e),
        None => true,
    }
}

pub fn optional_case_insensitive_match(actual: &str, expected: Option<&str>) -> (r: bool)
    ensures
        r == case_insensitive_match(
            actual@,
            match expected {
                Some(e) => Some(e@),
                None => None,
            },
        ),
{
    match expected {
        Some(e) => text::str_eq_ignore_case(actual, e),
        None => true,
    }
}

pub fn optional_exact_match(actual: Option<&str>, expected: Option<&str>) -> (r: bool)
    ensures
        r == exact_match(
            match actual {
                Some(a) => Some(a@),
                None => None,
            },
            match expected {
                Some(e) => Some(e@),
                None => None,
            },
        ),
{
    match expected {
        Some(e) => match actual {
            Some(a) => text::str_eq(a, e),
            None => false,
        },
        None => true,
    }
}

/// Whether an event passes a filter: operation, actor and result compare
/// without regard to ASCII case; the target ids compare exactly.
pub open spec fn event_matches(event: AuditEvent, filter: AuditFilterView) -> bool {
    &&& case_insensitive_match(event.operation@, filter.operation)
    &&& case_insensitive_match(event.actor@, filter.actor)
    &&& case_insensitive_match(event.result@, filter.result)
    &&& exact_match(opt_view(event.target_profile_id), filter.target_profile_id)
    &&& exact_match(opt_view(event.target_session_id), filter.target_session_id)
    &&& exact_match(opt_view(event.target_message_id), filter.target_message_id)
    &&& exact_match(opt_view(event.target_character_id), filter.target_character_id)
}

fn as_opt_str(o: &Option<String>) -> (r: Option<&str>)
    ensures
        match r {
            Some(s) => opt_view(*o) == Some(s@),
            None => o is None,
        },
{
    match o {
        Some(s) => Some(s.as_str()),
        None => None,
    }
}

pub fn audit_event_matches_filter(event: &AuditEvent, filter: &AuditFilter) -> (r: bool)
    ensures
        r == event_matches(*event, filter@),
{
    optional_case_insensitive_match(event.operation.as_str(), as_opt_str(&filter.operation))
        && optional_case_insensitive_match(event.actor.as_str(), as_opt_str(&filter.actor))
        && optional_case_insensitive_match(event.result.as_str(), as_opt_str(&filter.result))
        && optional_exact_match(
        as_opt_str(&event.target_profile_id),
        as_opt_str(&filter.target_profile_id),
    ) && optional_exact_match(
        as_opt_str(&event.target_session_id),
        as_opt_str(&filter.target_session_id),
    ) && optional_exact_match(
        as_opt_str(&event.target_message_id),
        as_opt_str(&filter.target_message_id),
    ) && optional_exact_match(
        as_opt_str(&event.target_character_id),
        as_opt_str(&filter.target_character_id),
    )
}

/// An empty filter lets every event through.
pub proof fn lemma_empty_filter_matches_all(event: AuditEvent, filter: AuditFilter)
    requires
        filter.is_empty_spec(),
    ensures
        event_matches(event, filter@),
{
}

/// Every criterion a filter sets is checked: an event whose operation, actor
/// or result differs (ASCII case aside) from the one the filter names, or
/// whose target profile, session, message or character id is not exactly the
/// one the filter names, does not pass.
pub proof fn lemma_each_set_criterion_excludes(event: AuditEvent, filter: AuditFilterView)
    ensures
        filter.operation matches Some(o) && !text::eq_ignore_case(event.operation@, o) ==> !event_matches(event, filter),
        filter.actor matches Some(a) && !text::eq_ignore_case(event.actor@, a) ==> !event_matches(event, filter),
        filter.result matches Some(r) && !text::eq_ignore_case(event.result@, r) ==> !event_matches(event, filter),
        filter.target_profile_id matches Some(p) && opt_view(event.target_profile_id) != Some(p) ==> !event_matches(
            event,
            filter,
        ),
        filter.target_session_id matches Some(p) && opt_view(event.target_session_id) != Some(p) ==> !event_matches(
            event,
            filter,
        ),
        filter.target_message_id matches Some(p) && opt_view(event.target_message_id) != Some(p) ==> !event_matches(
            event,
            filter,
        ),
        filter.target_character_id matches Some(p) && opt_view(event.target_character_id) != Some(p)
            ==> !event_matches(event, filter),
{
}

/// Nothing else is checked: an event that agrees with every criterion the
/// filter sets passes it.
pub proof fn lemma_agreeing_event_passes(event: AuditEvent, filter: AuditFilterView)
    requires
        filter.operation matches Some(o) ==> text::eq_ignore_case(event.operation@, o),
        filter.actor matches Some(a) ==> text::eq_ignore_case(event.actor@, a),
        filter.result matches Some(r) ==> text::eq_ignore_case(event.result@, r),
        filter.target_profile_id matches Some(p) ==> opt_view(event.target_profile_id) == Some(p),
        filter.target_session_id matches Some(p) ==> opt_view(event.target_session_id) == Some(p),
        filter.target_message_id matches Some(p) ==> opt_view(event.target_message_id) == Some(p),
        filter.target_character_id matches Some(p) ==> opt_view(event.target_character_id) == Some(p),
    ensures
        event_matches(event, filter),
{
}

/// Filtering keeps exactly the events that match, in their original order.
pub open spec fn filter_events(events: Seq<AuditEvent>, filter: AuditFilterView) -> Seq<AuditEvent> {
    events.filter(|e: AuditEvent| event_matches(e, filter))
}

pub fn retain_matching(events: Vec<AuditEvent>, filter: &AuditFilter) -> (r: Vec<AuditEvent>)
    ensures
        r@ == filter_events(events@, filter@),
{
    let ghost pred = |e: AuditEvent| event_matches(e, filter@);
    let mut out: Vec<AuditEvent> = Vec::new();
    let mut i: usize = 0;
    while i < events.len()
        invariant
            i <= events@.len(),
            pred == (|e: AuditEvent| event_matches(e, filter@)),
            out@ == events@.subrange(0, i as int).filter(pred),
        decreases events.len() - i,
    {
        proof {
            reveal_with_fuel(Seq::<_>::filter, 1);
        }
        assert(events@.subrange(0, i + 1).drop_last() =~= events@.subrange(0, i as int));
        if audit_event_matches_filter(&events[i], filter) {
            out.push(events[i].duplicate());
        }
        i = i + 1;
    }
    assert(events@.subrange(0, i as int) =~= events@);
    out
}

/// The most events an audit report lists.
pub const MAX_AUDIT_EVENTS: usize = 500;

/// The events an audit report lists: those the filter selects (all of them
/// when it is empty), in log order, then only the newest `limit` (at most
/// 500) when a limit is given.
pub open spec fn selected_events(events: Seq<AuditEvent>, filter: AuditFilter, limit: Option<usize>) -> Seq<AuditEvent> {
    let kept = if filter.is_empty_spec() {
        events
    } else {
        filter_events(events, filter@)
    };
    match limit {
        Some(l) => {
            let keep = if l < MAX_AUDIT_EVENTS {
                l as int
            } else {
                MAX_AUDIT_EVENTS as int
            };
            if kept.len() > keep {
                kept.subrange(kept.len() - keep, kept.len() as int)
            } else {
                kept
            }
        },
        None => kept,
    }
}

pub fn select_audit_events(events: Vec<AuditEvent>, filter: &AuditFilter, limit: Option<usize>) -> (r: Vec<AuditEvent>)
    ensures
        r@ == selected_events(events@, *filter, limit),
{
    let kept = if filter.is_empty() {
        events
    } else {
        retain_matching(events, filter)
    };
    match limit {
        Some(l) => {
            let keep = if l < MAX_AUDIT_EVENTS {
                l
            } else {
                MAX_AUDIT_EVENTS
            };
            if kept.len() > keep {
                let start = kept.len() - keep;
                let mut out: Vec<AuditEvent> = Vec::new();
                let mut i: usize = start;
                while i < kept.len()
                    invariant
                        start <= i <= kept@.len(),
                        out@ == kept@.subrange(start as int, i as int),
                    decreases kept.len() - i,
                {
                    out.push(kept[i].duplicate());
                    i = i + 1;
                    assert(out@ =~= kept@.subrange(start as int, i as int));
                }
                out
            } else {
                kept
            }
        },
        None => kept,
    }
}

/// One `name=value` part per criterion that is set.
pub open spec fn filter_part(name: Seq<char>, value: Option<Seq<char>>) -> Seq<Seq<char>> {
    match value {
        Some(v) => seq![name + "="@ + v],
        None => Seq::<Seq<char>>::empty(),
    }
}

/// How a filter is described: its criteria as `name=value`, comma-separated,
/// in a fixed order.
pub open spec fn filter_description(f: AuditFilterView) -> Seq<char> {
    text::join(
        filter_part("operation"@, f.operation) + filter_part("actor"@, f.actor) + filter_part("result"@, f.result)
            + filter_part("profile"@, f.target_profile_id) + filter_part("session"@, f.target_session_id)
            + filter_part("message"@, f.target_message_id) + filter_part("character"@, f.target_character_id),
        ", "@,
    )
}

fn push_part(parts: &mut Vec<String>, name: &str, value: &Option<String>)
    ensures
        final(parts)@.map_values(|p: String| p@) == old(parts)@.map_values(|p: String| p@) + filter_part(name@, opt_view(*value)),
{
    let ghost before = parts@.map_values(|p: String| p@);
    if let Some(v) = value {
        let mut s = text::owned(name);
        s.append("=");
        s.append(v.as_str());
        parts.push(s);
        assert(parts@.map_values(|p: String| p@) =~= before + filter_part(name@, opt_view(*value)));
    } else {
        assert(before + filter_part(name@, opt_view(*value)) =~= before);
    }
}

pub fn format_audit_filter(filter: &AuditFilter) -> (r: String)
    ensures
        r@ == filter_description(filter@),
{
    let mut parts: Vec<String> = Vec::new();
    push_part(&mut parts, "operation", &filter.operation);
    push_part(&mut parts, "actor", &filter.actor);
    push_part(&mut parts, "result", &filter.result);
    push_part(&mut parts, "profile", &filter.target_profile_id);
    push_part(&mut parts, "session", &filter.target_session_id);
    push_part(&mut parts, "message", &filter.target_message_id);
    push_part(&mut parts, "character", &filter.target_character_id);
    assert(Seq::<Seq<char>>::empty() + filter_part("operation"@, filter@.operation) =~= filter_part("operation"@, filter@.operation));
    text::join_strings(&parts, ", ")
}

/// Every listed event satisfies the filter, and a limited listing holds at
/// most the limit and never more than 500 events.
pub proof fn lemma_selected_events_match(events: Seq<AuditEvent>, filter: AuditFilter, limit: Option<usize>)
    ensures
        forall|i: int|
            0 <= i < selected_events(events, filter, limit).len() ==> event_matches(
                #[trigger] selected_events(events, filter, limit)[i],
                filter@,
            ),
        limit matches Some(l) ==> selected_events(events, filter, limit).len() <= l && selected_events(
            events,
            filter,
            limit,
        ).len() <= MAX_AUDIT_EVENTS,
        selected_events(events, filter, limit).len() <= events.len(),
{
    let pred = |e: AuditEvent| event_matches(e, filter@);
    let kept = if filter.is_empty_spec() {
        events
    } else {
        filter_events(events, filter@)
    };
    events.lemma_filter_len(pred);
    assert forall|i: int| 0 <= i < kept.len() implies event_matches(#[trigger] kept[i], filter@) by {
        if filter.is_empty_spec() {
            lemma_empty_filter_matches_all(kept[i], filter);
        } else {
            events.lemma_filter_pred(pred, i);
        }
    }
    let sel = selected_events(events, filter, limit);
    assert forall|i: int| 0 <= i < sel.len() implies event_matches(#[trigger] sel[i], filter@) by {
        if let Some(l) = limit {
            let keep = if l < MAX_AUDIT_EVENTS {
                l as int
            } else {
                MAX_AUDIT_EVENTS as int
            };
            if kept.len() > keep {
                assert(sel[i] == kept[kept.len() - keep + i]);
            }
        }
    }
}

} // verus!
