//! Query planning for the command store.
//!
//! The store itself is an outside collaborator reached over a database
//! connection; what is verifiable is which query a request turns into:
//! the full-text pattern built from the user's words, the choice among
//! the four search shapes, the choice among the four deletion shapes,
//! and which fields an update touches.  The surrounding application
//! executes the planned query verbatim.

use vstd::prelude::*;
use vstd::string::*;

use crate::errors::LiaCoreError;
use crate::models::UpdateCommand;

verus! {

/// Classifies the attempt to start the database container: fine when
/// the bootstrap command succeeded, otherwise the container error
/// naming the rendered status.
pub fn container_start_result(success: bool, status_text: &str) -> (r: Result<(), LiaCoreError>)
    ensures
        success ==> r is Ok,
        !success ==> (r matches Err(e) && e matches LiaCoreError::DatabaseContainerError(m) && m@
            == "Docker exited with status: "@ + status_text@),
{
    if success {
        Ok(())
    } else {
        let mut m = String::new();
        m.append("Docker exited with status: ");
        m.append(status_text);
        Err(LiaCoreError::DatabaseContainerError(m))
    }
}

/// Relies on `String::push`: it appends exactly the given character.
pub assume_specification[ String::push ](s: &mut String, c: char)
    ensures
        final(s)@ == old(s)@ + seq![c],
;

/// The user's query with every space turned into the full-text `AND`
/// connective.
pub open spec fn fts_replaced(q: Seq<char>) -> Seq<char>
    decreases q.len(),
{
    if q.len() == 0 {
        Seq::empty()
    } else {
        fts_replaced(q.drop_last()) + (if q.last() == ' ' {
            seq![' ', '&', ' ']
        } else {
            seq![q.last()]
        })
    }
}

/// The full-text pattern sent to the store: the connected words with a
/// prefix-match marker.
pub open spec fn fts_pattern(q: Seq<char>) -> Seq<char> {
    fts_replaced(q) + seq![':', '*']
}

/// Builds the full-text pattern for a query: `None` for an empty query,
/// otherwise the query with spaces replaced by ` & ` and `:*` appended.
pub fn build_search_query(query: &str) -> (r: Option<String>)
    ensures
        query@.len() == 0 ==> r is None,
        query@.len() > 0 ==> (r matches Some(s) && s@ == fts_pattern(query@)),
{
    if query.is_empty() {
        return None;
    }
    let n = query.unicode_len();
    let mut out = String::new();
    let mut i: usize = 0;
    while i < n
        invariant
            n == query@.len(),
            i <= n,
            out@ == fts_replaced(query@.take(i as int)),
        decreases n - i,
    {
        proof {
            assert(query@.take(i + 1).drop_last() =~= query@.take(i as int));
        }
        let c = query.get_char(i);
        if c == ' ' {
            out.append(" & ");
            proof {
                reveal_strlit(" & ");
                assert(out@ =~= fts_replaced(query@.take(i + 1)));
            }
        } else {
            out.push(c);
            proof {
                assert(out@ =~= fts_replaced(query@.take(i + 1)));
            }
        }
        i += 1;
    }
    out.append(":*");
    proof {
        reveal_strlit(":*");
        assert(query@.take(n as int) =~= query@);
        assert(out@ =~= fts_pattern(query@));
    }
    Some(out)
}

/// The four shapes a search can take, depending on whether a query and
/// tags were given.
pub enum SearchPlan {
    /// Full-text pattern and tag filter together.
    TextAndTags(String, Vec<String>),
    /// Full-text pattern alone.
    TextOnly(String),
    /// Tag filter alone, ordered by name.
    TagsOnly(Vec<String>),
    /// No filter: everything, ordered by name.
    All,
}

/// Chooses the search shape for a request: a non-empty query contributes
/// its full-text pattern, given tags contribute their filter.
pub fn plan_search(query: &str, tags: Option<Vec<String>>) -> (p: SearchPlan)
    ensures
        tags matches Some(t) ==> ((query@.len() > 0 ==> (p matches SearchPlan::TextAndTags(
            pattern,
            pt,
        ) && pattern@ == fts_pattern(query@) && pt == t)) && (query@.len() == 0 ==> p
            == SearchPlan::TagsOnly(t))),
        tags is None ==> ((query@.len() > 0 ==> (p matches SearchPlan::TextOnly(pattern)
            && pattern@ == fts_pattern(query@))) && (query@.len() == 0 ==> p == SearchPlan::All)),
{
    let pattern = build_search_query(query);
    match (pattern, tags) {
        (Some(sq), Some(tags_vec)) => SearchPlan::TextAndTags(sq, tags_vec),
        (Some(sq), None) => SearchPlan::TextOnly(sq),
        (None, Some(tags_vec)) => SearchPlan::TagsOnly(tags_vec),
        (None, None) => SearchPlan::All,
    }
}

/// The four shapes a deletion can take, depending on whether a name and
/// tags were given.
pub enum DeletionPlan {
    /// Delete the records with this name carrying one of these tags.
    ByNameAndTags(String, Vec<String>),
    /// Delete the records with this name.
    ByName(String),
    /// Delete the records carrying one of these tags.
    ByTags(Vec<String>),
    /// Neither a name nor tags: touch nothing.
    Nothing,
}

/// Chooses the deletion shape for a request.  With neither a name nor
/// tags the plan is `Nothing`: no record is matched and none deleted.
pub fn plan_deletion(name: Option<String>, tags: Option<Vec<String>>) -> (p: DeletionPlan)
    ensures
        name matches Some(n) ==> ((tags matches Some(t) ==> p == DeletionPlan::ByNameAndTags(n, t))
            && (tags is None ==> p == DeletionPlan::ByName(n))),
        name is None ==> ((tags matches Some(t) ==> p == DeletionPlan::ByTags(t)) && (tags is None
            ==> p == DeletionPlan::Nothing)),
{
    match (name, tags) {
        (Some(n), Some(t)) => DeletionPlan::ByNameAndTags(n, t),
        (Some(n), None) => DeletionPlan::ByName(n),
        (None, Some(t)) => DeletionPlan::ByTags(t),
        (None, None) => DeletionPlan::Nothing,
    }
}

/// One field an update writes.
pub enum UpdateField {
    Tags(Vec<String>),
    Description(String),
    CommandText(String),
}

/// The fields an update writes, in the order the store applies them:
/// tags, then description, then command text — exactly the `Some`
/// fields of the request.
pub open spec fn update_steps_spec(c: UpdateCommand) -> Seq<UpdateField> {
    (match c.new_tags {
        Some(t) => seq![UpdateField::Tags(t)],
        None => Seq::empty(),
    }) + (match c.new_description {
        Some(d) => seq![UpdateField::Description(d)],
        None => Seq::empty(),
    }) + (match c.new_command_text {
        Some(x) => seq![UpdateField::CommandText(x)],
        None => Seq::empty(),
    })
}

/// Turns an update request into the store's write steps.
pub fn update_steps(cmd: UpdateCommand) -> (steps: Vec<UpdateField>)
    ensures
        steps@ == update_steps_spec(cmd),
{
    let UpdateCommand { name: _, new_tags, new_description, new_command_text } = cmd;
    let mut steps: Vec<UpdateField> = Vec::new();
    if let Some(t) = new_tags {
        steps.push(UpdateField::Tags(t));
    }
    if let Some(d) = new_description {
        steps.push(UpdateField::Description(d));
    }
    if let Some(x) = new_command_text {
        steps.push(UpdateField::CommandText(x));
    }
    proof {
        assert(steps@ =~= update_steps_spec(cmd));
    }
    steps
}

} // verus!
