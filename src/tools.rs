use vstd::prelude::*;
use vstd::string::StringExecFns;

verus! {

/// One declared parameter of a tool.
#[derive(Clone, Debug)]
pub struct ParamSpec {
    pub name: String,
    /// The JSON type of the parameter ("string", "integer", ...).
    pub json_type: String,
    /// Free text that steers the model's choice of value.
    pub hint: String,
}

pub struct ParamView {
    pub name: Seq<char>,
    pub json_type: Seq<char>,
    pub hint: Seq<char>,
}

impl View for ParamSpec {
    type V = ParamView;

    open spec fn view(&self) -> ParamView {
        ParamView { name: self.name@, json_type: self.json_type@, hint: self.hint@ }
    }
}

/// Static metadata of one registered tool.
#[derive(Clone, Debug)]
pub struct ToolDescriptor {
    pub name: String,
    pub description: String,
    pub params: Vec<ParamSpec>,
}

pub struct DescriptorView {
    pub name: Seq<char>,
    pub description: Seq<char>,
    pub params: Seq<ParamView>,
}

impl View for ToolDescriptor {
    type V = DescriptorView;

    open spec fn view(&self) -> DescriptorView {
        DescriptorView {
            name: self.name@,
            description: self.description@,
            params: self.params@.map_values(|p: ParamSpec| p@),
        }
    }
}

pub open spec fn descriptors_view(ds: Seq<ToolDescriptor>) -> Seq<DescriptorView> {
    ds.map_values(|d: ToolDescriptor| d@)
}

/// Whether some descriptor of `ds` carries `name`.
pub open spec fn has_tool(ds: Seq<DescriptorView>, name: Seq<char>) -> bool {
    exists|i: int| 0 <= i < ds.len() && #[trigger] ds[i].name == name
}

/// No two descriptors share a name.
pub open spec fn names_distinct(ds: Seq<DescriptorView>) -> bool {
    forall|i: int, j: int|
        0 <= i < ds.len() && 0 <= j < ds.len() && i != j ==> #[trigger] ds[i].name != #[trigger] ds[j].name
}

/// Why a tool invocation produced no result.
#[derive(Clone, Debug)]
pub enum ToolError {
    /// No registered tool has the requested name.
    UnknownTool,
    /// The payload does not fit the tool's parameter schema.
    InvalidParameters(String),
    /// The tool itself failed.
    ExecutionFailed(String),
}

/// The text of the tool turn that reports error `e` of tool `name` to the model.
pub open spec fn error_text(name: Seq<char>, e: ToolError) -> Seq<char> {
    match e {
        ToolError::UnknownTool => "error: unknown tool "@ + name,
        ToolError::InvalidParameters(d) => "error: invalid parameters for "@ + name + ": "@ + d@,
        ToolError::ExecutionFailed(d) => "error: tool "@ + name + " failed: "@ + d@,
    }
}

/// The text of the tool turn for outcome `r` of tool `name`.
pub open spec fn outcome_text(name: Seq<char>, r: Result<String, ToolError>) -> Seq<char> {
    match r {
        Ok(s) => s@,
        Err(e) => error_text(name, e),
    }
}

/// Describes error `e` of tool `name` for the model.
pub fn describe_error(name: &str, e: &ToolError) -> (r: String)
    ensures
        r@ == error_text(name@, *e),
{
    match e {
        ToolError::UnknownTool => {
            let mut r = String::from_str("error: unknown tool ");
            r.append(name);
            r
        },
        ToolError::InvalidParameters(d) => {
            let mut r = String::from_str("error: invalid parameters for ");
            r.append(name);
            r.append(": ");
            r.append(d.as_str());
            r
        },
        ToolError::ExecutionFailed(d) => {
            let mut r = String::from_str("error: tool ");
            r.append(name);
            r.append(" failed: ");
            r.append(d.as_str());
            r
        },
    }
}

/// The text of the tool turn for outcome `r` of tool `name`.
pub fn outcome_content(name: &str, r: &Result<String, ToolError>) -> (c: String)
    ensures
        c@ == outcome_text(name@, *r),
{
    match r {
        Ok(s) => s.clone(),
        Err(e) => describe_error(name, e),
    }
}

/// The set of tools a coordinator can dispatch to, each with a distinct name.
pub struct ToolRegistry {
    tools: Vec<ToolDescriptor>,
}

impl View for ToolRegistry {
    type V = Seq<DescriptorView>;

    closed spec fn view(&self) -> Seq<DescriptorView> {
        descriptors_view(self.tools@)
    }
}

impl ToolRegistry {
    pub open spec fn wf(&self) -> bool {
        names_distinct(self@)
    }

    pub fn new() -> (r: Self)
        ensures
            r.wf(),
            r@ == Seq::<DescriptorView>::empty(),
    {
        let r = ToolRegistry { tools: Vec::new() };
        assert(r@ =~= Seq::<DescriptorView>::empty());
        r
    }

    /// Registers `d` unless a tool of that name is there already; returns
    /// whether it was added.
    pub fn add_tool(&mut self, d: ToolDescriptor) -> (added: bool)
        requires
            old(self).wf(),
        ensures
            final(self).wf(),
            added == !has_tool(old(self)@, d.name@),
            added ==> final(self)@ == old(self)@.push(d@),
            !added ==> final(self)@ == old(self)@,
    {
        match self.resolve(&d.name) {
            Ok(_) => false,
            Err(_) => {
                proof {
                    assert(descriptors_view(self.tools@.push(d)) =~= descriptors_view(self.tools@).push(d@));
                }
                self.tools.push(d);
                true
            },
        }
    }

    /// The descriptors of the registered tools, in order of registration.
    pub fn describe(&self) -> (r: &Vec<ToolDescriptor>)
        ensures
            descriptors_view(r@) == self@,
    {
        &self.tools
    }

    /// The position of the tool called `name`.
    pub fn resolve(&self, name: &String) -> (r: Result<usize, ToolError>)
        requires
            self.wf(),
        ensures
            match r {
                Ok(i) => i < self@.len() && self@[i as int].name == name@,
                Err(ToolError::UnknownTool) => !has_tool(self@, name@),
                Err(_) => false,
            },
    {
        let mut i: usize = 0;
        while i < self.tools.len()
            invariant
                i <= self.tools@.len(),
                self@ == descriptors_view(self.tools@),
                forall|k: int| 0 <= k < i ==> #[trigger] self@[k].name != name@,
            decreases self.tools.len() - i,
        {
            if self.tools[i].name.eq(name) {
                return Ok(i);
            }
            i = i + 1;
        }
        Err(ToolError::UnknownTool)
    }
}

} // verus!
