//! What the operations keep to: how their requests are read, and what their results hold.

use vstd::prelude::*;

use crate::bridge::{call_of, Op};
use crate::json::{kept, JsonView};
use crate::options::EnvView;
use crate::request::RequestView;

pub mod basics;
pub mod bigquery;
pub mod compute;
pub mod documents;
pub mod functions;
pub mod iam;
pub mod logging;
pub mod monitoring;
pub mod names;
pub mod outputs;
pub mod run;
pub mod secrets;
pub mod storage;
pub mod storage_commands;
pub mod topic_commands;
pub mod topics;
pub mod uris;
pub mod urls;
pub mod values;

verus! {

/// The object has those members and no others.
pub open spec fn has_members(j: JsonView, names: Set<Seq<char>>) -> bool {
    j matches JsonView::Obj(m) && m.dom() =~= names
}

/// The operation makes no request, and complains of that.
pub open spec fn refuses(op: Op, opts: JsonView, env: EnvView, complaint: Seq<char>) -> bool {
    call_of(op, opts, env) == Err::<RequestView, Seq<char>>(complaint)
}

/// What is picked is what is filtered and mapped.
pub proof fn lemma_kept(
    s: Seq<JsonView>,
    pick: spec_fn(JsonView) -> Option<JsonView>,
    keep: spec_fn(JsonView) -> bool,
    value: spec_fn(JsonView) -> JsonView,
)
    requires
        forall|o: JsonView| (#[trigger] pick(o) is Some) == keep(o),
        forall|o: JsonView| #[trigger] pick(o) is Some ==> pick(o)->0 == value(o),
    ensures
        kept(s, pick) == s.filter(keep).map_values(value),
    decreases s.len(),
{
    reveal(Seq::filter);
    if s.len() > 0 {
        lemma_kept(s.drop_last(), pick, keep, value);
        let before = s.drop_last().filter(keep);
        assert(before.push(s.last()).map_values(value) =~= before.map_values(value).push(
            value(s.last()),
        ));
        assert(pick(s.last()) is Some == keep(s.last()));
    } else {
        assert(s.filter(keep).map_values(value) =~= Seq::empty());
    }
}

} // verus!
