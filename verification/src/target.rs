//! Routing targets and the model ids they stand for.
use vstd::prelude::*;

use crate::text::{debug_string, debug_text};

verus! {

/// The id under which an algorithm knows a model.
#[derive(Debug)]
pub struct ModelId {
    pub name: String,
}

impl ModelId {
    /// The id with the given name.
    pub fn new(name: String) -> (id: ModelId)
        ensures
            id.name == name,
    {
        ModelId { name }
    }
}

impl Clone for ModelId {
    fn clone(&self) -> (id: ModelId)
        ensures
            id == *self,
    {
        ModelId { name: self.name.clone() }
    }
}

/// A semantic routing target.
#[derive(Debug)]
pub struct LlmTarget {
    pub name: String,
}

impl LlmTarget {
    /// The id of the model that the target stands for.
    pub open spec fn model_id(self) -> ModelId {
        ModelId { name: self.name }
    }

    /// The target has the given name.
    pub open spec fn named(self, name: Seq<char>) -> bool {
        self.name@ == name
    }

    /// A target with the given name.
    pub fn new(name: String) -> (target: LlmTarget)
        ensures
            target.name == name,
            target.named(name@),
    {
        LlmTarget { name }
    }

    /// The target's name.
    pub fn name(&self) -> (name: &str)
        ensures
            name@ == self.name@,
            self.named(name@),
    {
        self.name.as_str()
    }

    /// A fresh model id with the target's name.
    pub fn clone_core(&self) -> (id: ModelId)
        ensures
            id == self.model_id(),
            id.name == self.name,
    {
        ModelId::new(self.name.clone())
    }

    /// The representation that Python shows for the target.
    pub fn __repr__(&self) -> (text: String)
        ensures
            text@ == "LlmTarget(name="@ + debug_text(self.name@) + ")"@,
            text@ == representation(debug_text(self.name@)),
    {
        let quoted = debug_string(self.name.as_str());
        target_representation(quoted.as_str())
    }
}

/// A target stands for exactly one model id, and for no other target's: the id has its name.
pub proof fn law_model_id_has_the_name(a: LlmTarget, b: LlmTarget)
    ensures
        a.model_id().name == a.name,
        a.model_id() == b.model_id() <==> a.name == b.name,
{
}

/// The name that is read from a target is the one that it was made with, whatever its length and
/// its characters, and the one that its model id has.
pub proof fn law_target_gives_its_name_back(target: LlmTarget, given: Seq<char>, read: Seq<char>)
    requires
        target.named(given),
        target.named(read),
    ensures
        read == given,
        target.name@ == given,
        target.model_id().name@ == given,
{
}

/// What stands for a target whose name in quotes is given.
pub open spec fn representation(quoted: Seq<char>) -> Seq<char> {
    "LlmTarget(name="@ + quoted + ")"@
}

/// The representation holds the quoted name whole, after the class and up to the last bracket.
pub proof fn law_representation_holds_the_name(quoted: Seq<char>)
    ensures
        representation(quoted).len() == quoted.len() + 16,
        representation(quoted).take(15) == "LlmTarget(name="@,
        representation(quoted).skip(15).drop_last() == quoted,
        representation(quoted).last() == ')',
{
    reveal_strlit("LlmTarget(name=");
    reveal_strlit(")");
    assert("LlmTarget(name="@.len() == 15);
    assert(")"@.len() == 1);
    assert(representation(quoted).take(15) =~= "LlmTarget(name="@);
    assert(representation(quoted).skip(15).drop_last() =~= quoted);
}

/// The representation of a target, given its name in quotes.
pub fn target_representation(quoted: &str) -> (text: String)
    ensures
        text@ == "LlmTarget(name="@ + quoted@ + ")"@,
        text@ == representation(quoted@),
{
    "LlmTarget(name=".to_owned().concat(quoted).concat(")")
}

/// The ids are those of the targets, one for one.
pub open spec fn are_cores(targets: Seq<LlmTarget>, cores: Seq<ModelId>) -> bool {
    cores =~= targets.map_values(|target: LlmTarget| target.model_id())
}

/// No target is dropped, added, renamed or moved: the ids have the targets' names, place by place.
pub proof fn law_cores_are_the_targets(targets: Seq<LlmTarget>, cores: Seq<ModelId>, at: int)
    requires
        are_cores(targets, cores),
    ensures
        cores.len() == targets.len(),
        0 <= at < targets.len() ==> cores[at].name == targets[at].name,
{
}

/// The model ids of the targets, in their order.
pub fn target_cores(targets: &Vec<LlmTarget>) -> (cores: Vec<ModelId>)
    ensures
        cores@ == targets@.map_values(|target: LlmTarget| target.model_id()),
        are_cores(targets@, cores@),
        cores.len() == targets.len(),
        forall|i: int| 0 <= i < targets.len() ==> (#[trigger] cores[i]).name == targets[i].name,
{
    let mut cores: Vec<ModelId> = Vec::with_capacity(targets.len());
    let mut i: usize = 0;
    while i < targets.len()
        invariant
            i <= targets.len(),
            cores.len() == i,
            forall|j: int| 0 <= j < i ==> #[trigger] cores[j] == targets[j].model_id(),
        decreases targets.len() - i,
    {
        cores.push(targets[i].clone_core());
        i += 1;
    }
    cores
}

} // verus!
