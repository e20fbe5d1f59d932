//! Case lifecycle.
use vstd::prelude::*;
use crate::resource::Id;
use crate::json::{JsonMember, JsonValue, find_unique, is_text, member, text, text_member, unique_member};
use crate::text::str_eq;

verus! {

#[derive(Debug, Clone, PartialEq, Eq, Structural)]
pub enum CaseState {
    Draft,
    Active,
    WaitingUser,
    WaitingAuthority,
    ResponseDue,
    Resolved,
    Closed,
}

/// The case state machine.
pub open spec fn case_step(from: CaseState, to: CaseState) -> bool {
    match (from, to) {
        (CaseState::Draft, CaseState::Active) => true,
        (CaseState::Active, CaseState::WaitingUser) => true,
        (CaseState::Active, CaseState::WaitingAuthority) => true,
        (CaseState::Active, CaseState::ResponseDue) => true,
        (CaseState::Active, CaseState::Resolved) => true,
        (CaseState::WaitingUser, CaseState::Active) => true,
        (CaseState::WaitingAuthority, CaseState::Active) => true,
        (CaseState::ResponseDue, CaseState::Active) => true,
        (CaseState::ResponseDue, CaseState::Resolved) => true,
        (CaseState::Resolved, CaseState::Closed) => true,
        _ => false,
    }
}

impl CaseState {
    pub fn can_transition_to(&self, next: &Self) -> (b: bool)
        ensures
            b == case_step(*self, *next),
    {
        match (self, next) {
            (CaseState::Draft, CaseState::Active) => true,
            (CaseState::Active, CaseState::WaitingUser) => true,
            (CaseState::Active, CaseState::WaitingAuthority) => true,
            (CaseState::Active, CaseState::ResponseDue) => true,
            (CaseState::Active, CaseState::Resolved) => true,
            (CaseState::WaitingUser, CaseState::Active) => true,
            (CaseState::WaitingAuthority, CaseState::Active) => true,
            (CaseState::ResponseDue, CaseState::Active) => true,
            (CaseState::ResponseDue, CaseState::Resolved) => true,
            (CaseState::Resolved, CaseState::Closed) => true,
            _ => false,
        }
    }

    /// A copy of the state.
    pub fn duplicate(&self) -> (r: CaseState)
        ensures
            r == *self,
    {
        match self {
            CaseState::Draft => CaseState::Draft,
            CaseState::Active => CaseState::Active,
            CaseState::WaitingUser => CaseState::WaitingUser,
            CaseState::WaitingAuthority => CaseState::WaitingAuthority,
            CaseState::ResponseDue => CaseState::ResponseDue,
            CaseState::Resolved => CaseState::Resolved,
            CaseState::Closed => CaseState::Closed,
        }
    }
}

#[derive(Debug, Clone, PartialEq, Eq)]
pub struct Case {
    pub case_id: Id,
    pub state: CaseState,
}

impl Case {
    /// A copy of the case.
    pub fn duplicate(&self) -> (r: Case)
        ensures
            r == *self,
    {
        Case { case_id: self.case_id.clone(), state: self.state.duplicate() }
    }

    /// A new case with a non-empty id starts in `Draft`.
    pub fn new(case_id: Id) -> (r: Result<Self, &'static str>)
        ensures
            case_id@.len() == 0 ==> r == Err::<Case, &'static str>("case id is required"),
            case_id@.len() > 0 ==> r == Ok::<Case, &'static str>(Case { case_id, state: CaseState::Draft }),
    {
        if case_id.as_str().is_empty() {
            return Err("case id is required");
        }
        Ok(Case { case_id, state: CaseState::Draft })
    }

    /// Moves the case to `next` when the state machine allows it; otherwise
    /// the case is left unchanged.
    pub fn transition(&mut self, next: CaseState) -> (r: Result<(), &'static str>)
        ensures
            case_step(old(self).state, next) ==> r is Ok && *final(self) == (Case { state: next, ..*old(self) }),
            !case_step(old(self).state, next) ==> r == Err::<(), &'static str>("invalid case state transition")
                && *final(self) == *old(self),
    {
        if !self.state.can_transition_to(&next) {
            return Err("invalid case state transition");
        }
        self.state = next;
        Ok(())
    }
}

/// Wire name of a case state (snake case).
pub open spec fn state_wire(s: CaseState) -> &'static str {
    match s {
        CaseState::Draft => "draft",
        CaseState::Active => "active",
        CaseState::WaitingUser => "waiting_user",
        CaseState::WaitingAuthority => "waiting_authority",
        CaseState::ResponseDue => "response_due",
        CaseState::Resolved => "resolved",
        CaseState::Closed => "closed",
    }
}

/// The state whose wire name is `t`.
pub open spec fn state_of_wire(t: Seq<char>) -> Option<CaseState> {
    if t == "draft"@ {
        Some(CaseState::Draft)
    } else if t == "active"@ {
        Some(CaseState::Active)
    } else if t == "waiting_user"@ {
        Some(CaseState::WaitingUser)
    } else if t == "waiting_authority"@ {
        Some(CaseState::WaitingAuthority)
    } else if t == "response_due"@ {
        Some(CaseState::ResponseDue)
    } else if t == "resolved"@ {
        Some(CaseState::Resolved)
    } else if t == "closed"@ {
        Some(CaseState::Closed)
    } else {
        None
    }
}

/// `v` is the JSON form of a case: its id, then its state.
pub open spec fn is_case_json(v: JsonValue, c: Case) -> bool {
    v matches JsonValue::Object(ms) && ms@.len() == 2 && text_member(ms@[0], "case_id"@, c.case_id@)
        && text_member(ms@[1], "state"@, state_wire(c.state)@)
}

/// `v` is the JSON object `{"state": ...}` of a case state.
pub open spec fn is_state_json(v: JsonValue, s: CaseState) -> bool {
    v matches JsonValue::Object(ms) && ms@.len() == 1 && text_member(ms@[0], "state"@, state_wire(s)@)
}

/// The id and state that a JSON document describes as a case: an object with
/// exactly one `case_id` text and exactly one `state` text naming a state.
/// Other members are ignored.
pub open spec fn case_decoding(v: JsonValue) -> Option<(Seq<char>, CaseState)> {
    match v {
        JsonValue::Object(ms) => match (unique_member(ms@, "case_id"@), unique_member(ms@, "state"@)) {
            (Some(JsonValue::String(id)), Some(JsonValue::String(st))) => match state_of_wire(st@) {
                Some(s) => Some((id@, s)),
                None => None,
            },
            _ => None,
        },
        _ => None,
    }
}

impl CaseState {
    pub fn wire_name(&self) -> (r: &'static str)
        ensures
            r == state_wire(*self),
    {
        match self {
            CaseState::Draft => "draft",
            CaseState::Active => "active",
            CaseState::WaitingUser => "waiting_user",
            CaseState::WaitingAuthority => "waiting_authority",
            CaseState::ResponseDue => "response_due",
            CaseState::Resolved => "resolved",
            CaseState::Closed => "closed",
        }
    }

    pub fn from_wire(t: &str) -> (r: Option<CaseState>)
        ensures
            r == state_of_wire(t@),
    {
        if str_eq(t, "draft") {
            Some(CaseState::Draft)
        } else if str_eq(t, "active") {
            Some(CaseState::Active)
        } else if str_eq(t, "waiting_user") {
            Some(CaseState::WaitingUser)
        } else if str_eq(t, "waiting_authority") {
            Some(CaseState::WaitingAuthority)
        } else if str_eq(t, "response_due") {
            Some(CaseState::ResponseDue)
        } else if str_eq(t, "resolved") {
            Some(CaseState::Resolved)
        } else if str_eq(t, "closed") {
            Some(CaseState::Closed)
        } else {
            None
        }
    }

    /// `{"state": <wire name>}`.
    pub fn to_json(&self) -> (r: JsonValue)
        ensures
            is_state_json(r, *self),
    {
        let mut ms: Vec<JsonMember> = Vec::new();
        ms.push(member("state", text(self.wire_name())));
        JsonValue::Object(ms)
    }
}

impl Case {
    /// The JSON form of the case.
    pub fn to_json(&self) -> (r: JsonValue)
        ensures
            is_case_json(r, *self),
    {
        let mut ms: Vec<JsonMember> = Vec::new();
        ms.push(member("case_id", text(self.case_id.as_str())));
        ms.push(member("state", text(self.state.wire_name())));
        JsonValue::Object(ms)
    }

    /// The case that a JSON document describes, if it describes one.
    pub fn from_json(v: &JsonValue) -> (r: Option<Case>)
        ensures
            match r {
                Some(c) => case_decoding(*v) == Some((c.case_id@, c.state)),
                None => case_decoding(*v) is None,
            },
    {
        let ms = match v {
            JsonValue::Object(ms) => ms,
            _ => return None,
        };
        let id = match find_unique(ms, "case_id") {
            Some(JsonValue::String(id)) => id,
            _ => return None,
        };
        let state = match find_unique(ms, "state") {
            Some(JsonValue::String(st)) => match CaseState::from_wire(st.as_str()) {
                Some(s) => s,
                None => return None,
            },
            _ => return None,
        };
        Some(Case { case_id: id.clone(), state })
    }
}

/// Each state's wire name reads back as that state.
pub proof fn lemma_state_wire_round_trip(s: CaseState)
    ensures
        state_of_wire(state_wire(s)@) == Some(s),
{
    match s {
        CaseState::Draft => {
            reveal_strlit("draft");
        },
        CaseState::Active => {
            reveal_strlit("active");
            reveal_strlit("draft");
            assert("active"@ != "draft"@) by { assert("active"@.len() != "draft"@.len()); }
        },
        CaseState::WaitingUser => {
            reveal_strlit("waiting_user");
            reveal_strlit("draft");
            assert("waiting_user"@ != "draft"@) by { assert("waiting_user"@.len() != "draft"@.len()); }
            reveal_strlit("active");
            assert("waiting_user"@ != "active"@) by { assert("waiting_user"@.len() != "active"@.len()); }
        },
        CaseState::WaitingAuthority => {
            reveal_strlit("waiting_authority");
            reveal_strlit("draft");
            assert("waiting_authority"@ != "draft"@) by { assert("waiting_authority"@.len() != "draft"@.len()); }
            reveal_strlit("active");
            assert("waiting_authority"@ != "active"@) by { assert("waiting_authority"@.len() != "active"@.len()); }
            reveal_strlit("waiting_user");
            assert("waiting_authority"@ != "waiting_user"@) by { assert("waiting_authority"@.len() != "waiting_user"@.len()); }
        },
        CaseState::ResponseDue => {
            reveal_strlit("response_due");
            reveal_strlit("draft");
            assert("response_due"@ != "draft"@) by { assert("response_due"@.len() != "draft"@.len()); }
            reveal_strlit("active");
            assert("response_due"@ != "active"@) by { assert("response_due"@.len() != "active"@.len()); }
            reveal_strlit("waiting_user");
            assert("response_due"@ != "waiting_user"@) by { assert("response_due"@[0] != "waiting_user"@[0]); }
            reveal_strlit("waiting_authority");
            assert("response_due"@ != "waiting_authority"@) by { assert("response_due"@.len() != "waiting_authority"@.len()); }
        },
        CaseState::Resolved => {
            reveal_strlit("resolved");
            reveal_strlit("draft");
            assert("resolved"@ != "draft"@) by { assert("resolved"@.len() != "draft"@.len()); }
            reveal_strlit("active");
            assert("resolved"@ != "active"@) by { assert("resolved"@.len() != "active"@.len()); }
            reveal_strlit("waiting_user");
            assert("resolved"@ != "waiting_user"@) by { assert("resolved"@.len() != "waiting_user"@.len()); }
            reveal_strlit("waiting_authority");
            assert("resolved"@ != "waiting_authority"@) by { assert("resolved"@.len() != "waiting_authority"@.len()); }
            reveal_strlit("response_due");
            assert("resolved"@ != "response_due"@) by { assert("resolved"@.len() != "response_due"@.len()); }
        },
        CaseState::Closed => {
            reveal_strlit("closed");
            reveal_strlit("draft");
            assert("closed"@ != "draft"@) by { assert("closed"@.len() != "draft"@.len()); }
            reveal_strlit("active");
            assert("closed"@ != "active"@) by { assert("closed"@[0] != "active"@[0]); }
            reveal_strlit("waiting_user");
            assert("closed"@ != "waiting_user"@) by { assert("closed"@.len() != "waiting_user"@.len()); }
            reveal_strlit("waiting_authority");
            assert("closed"@ != "waiting_authority"@) by { assert("closed"@.len() != "waiting_authority"@.len()); }
            reveal_strlit("response_due");
            assert("closed"@ != "response_due"@) by { assert("closed"@.len() != "response_due"@.len()); }
            reveal_strlit("resolved");
            assert("closed"@ != "resolved"@) by { assert("closed"@.len() != "resolved"@.len()); }
        },
    }
}

/// Decoding the JSON form of a case gives the case back.
pub proof fn lemma_case_json_round_trip(v: JsonValue, c: Case)
    requires
        is_case_json(v, c),
    ensures
        case_decoding(v) == Some((c.case_id@, c.state)),
{
    let ms = v->Object_0@;
    reveal_strlit("case_id");
    reveal_strlit("state");
    assert("case_id"@ != "state"@) by {
        assert("case_id"@.len() != "state"@.len());
    }
    crate::json::lemma_unique_at(ms, "case_id"@, 0);
    crate::json::lemma_unique_at(ms, "state"@, 1);
    lemma_state_wire_round_trip(c.state);
}

/// A closed case is final: no transition leaves `Closed`, and `Draft` is never
/// re-entered once left.
pub proof fn lemma_case_closed_is_final(next: CaseState)
    ensures
        !case_step(CaseState::Closed, next),
        !case_step(next, CaseState::Draft),
{
}

} // verus!
