//! The search bar's state and its query classifier.
//!
//! A free-text query is classified by shape alone: exactly 42 characters
//! beginning with `0x` is taken for a user address, exactly 32 characters
//! for an application hash, exactly 24 characters for a record id, and any
//! other shape applies no filter.  This is a documented heuristic, not a
//! validating parse.
//!
//! The bar holds three inputs (free text and two enum selectors, where the
//! `All` choice means no filter) and a trigger: typing alone never reaches
//! the server; only the search action or a selector change does, and reset
//! clears all three inputs and the trigger at once.

use crate::task::TaskStatus;
use crate::task::TaskType;
use vstd::prelude::*;

verus! {

/// Which server-side filter a free-text query populates.
#[derive(Debug, Clone, Copy, PartialEq, Eq, Structural)]
pub enum QueryClass {
    UserAddress,
    Md5,
    TaskId,
    NoFilter,
}

/// The classification of a query by its shape.
pub open spec fn query_class(s: Seq<char>) -> QueryClass {
    if s.len() == 42 && s[0] == '0' && s[1] == 'x' {
        QueryClass::UserAddress
    } else if s.len() == 32 {
        QueryClass::Md5
    } else if s.len() == 24 {
        QueryClass::TaskId
    } else {
        QueryClass::NoFilter
    }
}

/// Classifies a free-text query by its shape, exactly as `query_class`
/// states.
pub fn classify_query(q: &str) -> (r: QueryClass)
    ensures
        r == query_class(q@),
{
    let l = q.unicode_len();
    if l == 42 && q.get_char(0) == '0' && q.get_char(1) == 'x' {
        QueryClass::UserAddress
    } else if l == 32 {
        QueryClass::Md5
    } else if l == 24 {
        QueryClass::TaskId
    } else {
        QueryClass::NoFilter
    }
}

/// Routes a free-text query into the one task-list filter its shape
/// selects: user address, application hash, record id, or none of them.
pub fn split_task_query(query: Option<String>) -> (r: (
    Option<String>,
    Option<String>,
    Option<String>,
))
    ensures
        match query {
            Some(q) => match query_class(q@) {
                QueryClass::UserAddress => {
                    &&& r.0 matches Some(u) && u@ == q@
                    &&& r.1 is None
                    &&& r.2 is None
                },
                QueryClass::Md5 => {
                    &&& r.0 is None
                    &&& r.1 matches Some(m) && m@ == q@
                    &&& r.2 is None
                },
                QueryClass::TaskId => {
                    &&& r.0 is None
                    &&& r.1 is None
                    &&& r.2 matches Some(i) && i@ == q@
                },
                QueryClass::NoFilter => r.0 is None && r.1 is None && r.2 is None,
            },
            None => r.0 is None && r.1 is None && r.2 is None,
        },
{
    match query {
        Some(q) => match classify_query(q.as_str()) {
            QueryClass::UserAddress => (Some(q), None, None),
            QueryClass::Md5 => (None, Some(q), None),
            QueryClass::TaskId => (None, None, Some(q)),
            QueryClass::NoFilter => (None, None, None),
        },
        None => (None, None, None),
    }
}

/// The search bar's inputs: the free text and the two selector values,
/// where `None` is the `All` choice.
#[derive(Debug, Clone)]
pub struct SearchInputs {
    pub query: Option<String>,
    pub task_type: Option<TaskType>,
    pub status: Option<TaskStatus>,
}

/// The search bar's whole state: its inputs and the trigger that gates when
/// they apply.
#[derive(Debug, Clone)]
pub struct SearchState {
    pub inputs: SearchInputs,
    pub trigger: bool,
}

impl SearchState {
    /// A fresh bar: empty inputs, nothing triggered.
    pub fn new() -> (r: Self)
        ensures
            r.inputs.query is None,
            r.inputs.task_type is None,
            r.inputs.status is None,
            !r.trigger,
    {
        SearchState {
            inputs: SearchInputs { query: None, task_type: None, status: None },
            trigger: false,
        }
    }

    /// Typing updates the text without touching the trigger or selectors.
    pub fn set_query(&mut self, query: Option<String>)
        ensures
            final(self).inputs.query == query,
            final(self).inputs.task_type == old(self).inputs.task_type,
            final(self).inputs.status == old(self).inputs.status,
            final(self).trigger == old(self).trigger,
    {
        self.inputs.query = query;
    }

    /// A selector change takes effect at once, so it also triggers.
    pub fn choose_task_type(&mut self, sel: Option<TaskType>)
        ensures
            final(self).inputs.task_type == sel,
            final(self).inputs.query == old(self).inputs.query,
            final(self).inputs.status == old(self).inputs.status,
            final(self).trigger,
    {
        self.inputs.task_type = sel;
        self.trigger = true;
    }

    /// A selector change takes effect at once, so it also triggers.
    pub fn choose_status(&mut self, sel: Option<TaskStatus>)
        ensures
            final(self).inputs.status == sel,
            final(self).inputs.query == old(self).inputs.query,
            final(self).inputs.task_type == old(self).inputs.task_type,
            final(self).trigger,
    {
        self.inputs.status = sel;
        self.trigger = true;
    }

    /// The search action applies whatever stands in the inputs.
    pub fn press_search(&mut self)
        ensures
            final(self).inputs.query == old(self).inputs.query,
            final(self).inputs.task_type == old(self).inputs.task_type,
            final(self).inputs.status == old(self).inputs.status,
            final(self).trigger,
    {
        self.trigger = true;
    }

    /// Reset clears all three inputs and the trigger simultaneously.
    pub fn reset(&mut self)
        ensures
            final(self).inputs.query is None,
            final(self).inputs.task_type is None,
            final(self).inputs.status is None,
            !final(self).trigger,
    {
        self.inputs = SearchInputs { query: None, task_type: None, status: None };
        self.trigger = false;
    }

    /// The filters a fetch sees: the inputs when triggered, nothing before.
    pub fn effective_inputs(&self) -> (r: Option<SearchInputs>)
        ensures
            self.trigger ==> r == Some(self.inputs),
            !self.trigger ==> r is None,
    {
        if self.trigger {
            Some(
                SearchInputs {
                    query: crate::strutil::clone_opt_string(&self.inputs.query),
                    task_type: self.inputs.task_type,
                    status: self.inputs.status,
                },
            )
        } else {
            None
        }
    }
}

/// The label of the selector choice that means no filter.
pub open spec fn all_label() -> Seq<char> {
    "All"@
}

/// The task-type selector's choices: `All`, then the types the bar offers.
pub fn task_type_options() -> (r: Vec<String>)
    ensures
        r@.len() == 4,
        r@[0]@ == all_label(),
        r@[1]@ == TaskType::Setup.label_spec(),
        r@[2]@ == TaskType::Reset.label_spec(),
        r@[3]@ == TaskType::Prove.label_spec(),
{
    let mut v: Vec<String> = Vec::new();
    v.push(String::from_str("All"));
    v.push(String::from_str(TaskType::Setup.label()));
    v.push(String::from_str(TaskType::Reset.label()));
    v.push(String::from_str(TaskType::Prove.label()));
    v
}

/// The status selector's choices: `All`, then every status.
pub fn task_status_options() -> (r: Vec<String>)
    ensures
        r@.len() == 9,
        r@[0]@ == all_label(),
        r@[1]@ == TaskStatus::Pending.label_spec(),
        r@[2]@ == TaskStatus::Processing.label_spec(),
        r@[3]@ == TaskStatus::DryRunSuccess.label_spec(),
        r@[4]@ == TaskStatus::DryRunFailed.label_spec(),
        r@[5]@ == TaskStatus::Done.label_spec(),
        r@[6]@ == TaskStatus::Fail.label_spec(),
        r@[7]@ == TaskStatus::Unprovable.label_spec(),
        r@[8]@ == TaskStatus::Stale.label_spec(),
{
    let mut v: Vec<String> = Vec::new();
    v.push(String::from_str("All"));
    v.push(String::from_str(TaskStatus::Pending.label()));
    v.push(String::from_str(TaskStatus::Processing.label()));
    v.push(String::from_str(TaskStatus::DryRunSuccess.label()));
    v.push(String::from_str(TaskStatus::DryRunFailed.label()));
    v.push(String::from_str(TaskStatus::Done.label()));
    v.push(String::from_str(TaskStatus::Fail.label()));
    v.push(String::from_str(TaskStatus::Unprovable.label()));
    v.push(String::from_str(TaskStatus::Stale.label()));
    v
}

/// What the task-type selector shows for a selection: the label, or `All`
/// when nothing is selected.
pub fn task_type_selection_label(sel: &Option<TaskType>) -> (r: String)
    ensures
        match sel {
            Some(t) => r@ == t.label_spec(),
            None => r@ == all_label(),
        },
{
    match sel {
        Some(t) => String::from_str(t.label()),
        None => String::from_str("All"),
    }
}

/// What the status selector shows for a selection.
pub fn task_status_selection_label(sel: &Option<TaskStatus>) -> (r: String)
    ensures
        match sel {
            Some(t) => r@ == t.label_spec(),
            None => r@ == all_label(),
        },
{
    match sel {
        Some(t) => String::from_str(t.label()),
        None => String::from_str("All"),
    }
}

/// Reads a task-type selector value back: `All` clears the filter, a
/// variant's label selects it, and anything else is a programming error the
/// caller must fail on, never a silent match.
pub fn task_type_selection_from_label(s: &str) -> (r: Option<Option<TaskType>>)
    ensures
        match r {
            Some(sel) => match sel {
                Some(t) => s@ == t.label_spec(),
                None => s@ == all_label(),
            },
            None => s@ != all_label() && (forall|t: TaskType| s@ != t.label_spec()),
        },
{
    if crate::strutil::str_eq(s, "All") {
        Some(None)
    } else {
        match TaskType::from_label(s) {
            Some(t) => Some(Some(t)),
            None => None,
        }
    }
}

/// Reads a status selector value back, under the same rule.
pub fn task_status_selection_from_label(s: &str) -> (r: Option<Option<TaskStatus>>)
    ensures
        match r {
            Some(sel) => match sel {
                Some(t) => s@ == t.label_spec(),
                None => s@ == all_label(),
            },
            None => s@ != all_label() && (forall|t: TaskStatus| s@ != t.label_spec()),
        },
{
    if crate::strutil::str_eq(s, "All") {
        Some(None)
    } else {
        match TaskStatus::from_label(s) {
            Some(t) => Some(Some(t)),
            None => None,
        }
    }
}

} // verus!
