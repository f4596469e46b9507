//! Tool registration for a workflow run.

use vstd::prelude::*;
use crate::text::owned;
use super::error::ToolError;

verus! {

/// Registered tool metadata and per-tool timeout.
#[derive(Debug)]
pub struct RegisteredTool {
    /// Tool name used for dispatch.
    pub name: String,
    /// JSON Schema for inputs.
    pub input_schema: serde_json::Value,
    /// Wall-clock timeout in whole seconds.
    pub timeout_secs: u64,
}

/// In-memory registry for one workflow execution: at most one tool per name,
/// kept in registration order.
#[derive(Debug)]
pub struct ToolRegistry {
    tools: Vec<RegisteredTool>,
}

/// Names of `tools`, in order.
pub open spec fn names_of(tools: Seq<RegisteredTool>) -> Seq<Seq<char>> {
    tools.map_values(|t: RegisteredTool| t.name@)
}

/// The tool registered under `name`, if any.
pub open spec fn tool_for(tools: Seq<RegisteredTool>, name: Seq<char>) -> Option<RegisteredTool> {
    if names_of(tools).contains(name) {
        Some(tools[names_of(tools).index_of(name)])
    } else {
        None
    }
}

proof fn lemma_tool_at(tools: Seq<RegisteredTool>, i: int)
    requires
        names_of(tools).no_duplicates(),
        0 <= i < tools.len(),
    ensures
        tool_for(tools, tools[i].name@) == Some(tools[i]),
{
    let names = names_of(tools);
    assert(names[i] == tools[i].name@);
    assert(names.contains(tools[i].name@));
    let k = names.index_of(tools[i].name@);
    assert(names[k] == names[i]);
}

/// Reading back a registration: after registering `tool` under a free name,
/// the tool found under that name is `tool`, the tool found under any other
/// name is unchanged, and names stay distinct.
pub proof fn law_register_then_get(tools: Seq<RegisteredTool>, tool: RegisteredTool, other: Seq<char>)
    requires
        names_of(tools).no_duplicates(),
        !names_of(tools).contains(tool.name@),
    ensures
        names_of(tools.push(tool)).no_duplicates(),
        tool_for(tools.push(tool), tool.name@) == Some(tool),
        other != tool.name@ ==> tool_for(tools.push(tool), other) == tool_for(tools, other),
{
    let after = tools.push(tool);
    assert(names_of(after) =~= names_of(tools).push(tool.name@));
    lemma_tool_at(after, tools.len() as int);
    if other != tool.name@ && names_of(tools).contains(other) {
        let k = names_of(tools).index_of(other);
        assert(tools[k].name@ == other);
        lemma_tool_at(tools, k);
        assert(after[k] == tools[k]);
        lemma_tool_at(after, k);
    }
    if other != tool.name@ && names_of(after).contains(other) {
        let k = names_of(after).index_of(other);
        assert(k < tools.len());
        assert(names_of(tools)[k] == other);
    }
}

impl View for ToolRegistry {
    type V = Seq<RegisteredTool>;

    closed spec fn view(&self) -> Seq<RegisteredTool> {
        self.tools@
    }
}

impl ToolRegistry {
    /// No name is registered twice.
    pub open spec fn well_formed(&self) -> bool {
        names_of(self@).no_duplicates()
    }

    /// Whether a tool named `name` is registered.
    pub open spec fn has(&self, name: Seq<char>) -> bool {
        names_of(self@).contains(name)
    }

    /// Creates an empty registry.
    pub fn new() -> (r: Self)
        ensures
            r@ == Seq::<RegisteredTool>::empty(),
            r.well_formed(),
    {
        ToolRegistry { tools: Vec::new() }
    }

    fn position(&self, name: &str) -> (r: Option<usize>)
        ensures
            r matches Some(i) ==> i < self@.len() && self@[i as int].name@ == name@,
            r is None ==> !self.has(name@),
    {
        let key = owned(name);
        let mut i: usize = 0;
        while i < self.tools.len()
            invariant
                i <= self.tools@.len(),
                key@ == name@,
                forall|j: int| 0 <= j < i ==> (#[trigger] self.tools@[j]).name@ != name@,
            decreases self.tools.len() - i,
        {
            if self.tools[i].name == key {
                return Some(i);
            }
            i = i + 1;
        }
        proof {
            if self.has(name@) {
                let k = names_of(self.tools@).index_of(name@);
                assert(self.tools@[k].name@ == name@);
            }
        }
        None
    }

    /// Registers a tool, or fails with `DuplicateName` when its name is taken.
    pub fn register(&mut self, tool: RegisteredTool) -> (r: Result<(), ToolError>)
        requires
            old(self).well_formed(),
        ensures
            final(self).well_formed(),
            old(self).has(tool.name@) ==> {
                &&& r matches Err(ToolError::DuplicateName { name }) && name@ == tool.name@
                &&& final(self)@ == old(self)@
            },
            !old(self).has(tool.name@) ==> {
                &&& r is Ok
                &&& final(self)@ == old(self)@.push(tool)
            },
    {
        if let Some(i) = self.position(tool.name.as_str()) {
            proof {
                assert(names_of(self.tools@)[i as int] == tool.name@);
            }
            return Err(ToolError::DuplicateName { name: tool.name.clone() });
        }
        let ghost before = self.tools@;
        let ghost n = tool.name@;
        self.tools.push(tool);
        proof {
            assert(names_of(self.tools@) =~= names_of(before).push(n));
        }
        Ok(())
    }

    /// Looks up a registered tool.
    pub fn get(&self, name: &str) -> (r: Option<&RegisteredTool>)
        ensures
            r is Some == self.has(name@),
            r matches Some(t) ==> t.name@ == name@ && exists|i: int| 0 <= i < self@.len() && self@[i] == *t,
            self.well_formed() ==> (r matches Some(t) ==> Some(*t) == tool_for(self@, name@)),
    {
        match self.position(name) {
            Some(i) => {
                proof {
                    assert(names_of(self.tools@)[i as int] == name@);
                    if self.well_formed() {
                        lemma_tool_at(self@, i as int);
                    }
                }
                Some(&self.tools[i])
            },
            None => None,
        }
    }

    /// All registered tool names, in registration order.
    pub fn names(&self) -> (r: Vec<String>)
        ensures
            r@.map_values(|s: String| s@) == names_of(self@),
    {
        let mut out: Vec<String> = Vec::new();
        let mut i: usize = 0;
        assert(out@.map_values(|s: String| s@) =~= names_of(self.tools@.take(0)));
        while i < self.tools.len()
            invariant
                i <= self.tools@.len(),
                out@.map_values(|s: String| s@) == names_of(self.tools@.take(i as int)),
            decreases self.tools.len() - i,
        {
            let ghost before = out@;
            out.push(self.tools[i].name.clone());
            assert(self.tools@.take(i + 1) =~= self.tools@.take(i as int).push(self.tools@[i as int]));
            assert(names_of(self.tools@.take(i + 1)) =~= names_of(self.tools@.take(i as int)).push(self.tools@[i as int].name@));
            assert(out@.map_values(|s: String| s@) =~= before.map_values(|s: String| s@).push(out@.last()@));
            assert(out@.map_values(|s: String| s@) =~= names_of(self.tools@.take(i + 1)));
            i = i + 1;
        }
        assert(self.tools@.take(self.tools@.len() as int) =~= self.tools@);
        out
    }

    /// Whether any tool is registered.
    pub fn is_empty(&self) -> (b: bool)
        ensures
            b == (self@.len() == 0),
    {
        self.tools.len() == 0
    }
}

} // verus!
