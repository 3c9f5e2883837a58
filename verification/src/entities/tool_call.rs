use vstd::prelude::*;

verus! {

/// The kind of a tool call; the model only requests function calls.
#[derive(Clone, Copy, Debug, PartialEq, Eq, Structural)]
pub enum ToolCallType {
    Function,
}

impl ToolCallType {
    /// The kind's name, as it is displayed and sent.
    pub fn to_string(&self) -> (r: String)
        ensures
            r@ == "function"@,
    {
        String::from_str("function")
    }
}

/// A tool call that the model requested.
#[derive(Debug)]
pub struct ToolCall {
    id: String,
    kind: ToolCallType,
    function: Option<ToolCallFunction>,
}

/// The function that a tool call names, with its arguments as the model
/// wrote them.
#[derive(Debug)]
pub struct ToolCallFunction {
    name: String,
    arguments: String,
}

/// What a tool call function holds.
pub struct ToolCallFunctionView {
    pub name: Seq<char>,
    pub arguments: Seq<char>,
}

/// What a tool call holds.
pub struct ToolCallView {
    pub id: Seq<char>,
    pub kind: ToolCallType,
    pub function: Option<ToolCallFunctionView>,
}

impl View for ToolCallFunction {
    type V = ToolCallFunctionView;

    closed spec fn view(&self) -> ToolCallFunctionView {
        ToolCallFunctionView { name: self.name@, arguments: self.arguments@ }
    }
}

/// The view of an optional function.
pub open spec fn opt_function_view(f: Option<ToolCallFunction>) -> Option<ToolCallFunctionView> {
    match f {
        Some(f) => Some(f@),
        None => None,
    }
}

impl View for ToolCall {
    type V = ToolCallView;

    closed spec fn view(&self) -> ToolCallView {
        ToolCallView { id: self.id@, kind: self.kind, function: opt_function_view(self.function) }
    }
}

impl Clone for ToolCallFunction {
    fn clone(&self) -> (r: Self)
        ensures
            r == *self,
    {
        ToolCallFunction { name: self.name.clone(), arguments: self.arguments.clone() }
    }
}

impl Clone for ToolCall {
    fn clone(&self) -> (r: Self)
        ensures
            r == *self,
    {
        let function = match &self.function {
            Some(f) => Some(f.clone()),
            None => None,
        };
        ToolCall { id: self.id.clone(), kind: self.kind, function }
    }
}

impl ToolCallFunction {
    /// A function call with the given name and arguments.
    pub fn new(name: String, arguments: String) -> (r: Self)
        ensures
            r@ == (ToolCallFunctionView { name: name@, arguments: arguments@ }),
    {
        ToolCallFunction { name, arguments }
    }

    pub fn name(&self) -> (r: &str)
        ensures
            r@ == self@.name,
    {
        self.name.as_str()
    }

    pub fn arguments(&self) -> (r: &str)
        ensures
            r@ == self@.arguments,
    {
        self.arguments.as_str()
    }
}

impl ToolCall {
    /// A function tool call with the given id.
    pub fn new(id: String, function: Option<ToolCallFunction>) -> (r: Self)
        ensures
            r@ == (ToolCallView {
                id: id@,
                kind: ToolCallType::Function,
                function: opt_function_view(function),
            }),
    {
        ToolCall { id, kind: ToolCallType::Function, function }
    }

    pub fn id(&self) -> (r: &str)
        ensures
            r@ == self@.id,
    {
        self.id.as_str()
    }

    pub fn kind(&self) -> (r: ToolCallType)
        ensures
            r == self@.kind,
    {
        self.kind
    }

    pub fn function(&self) -> (r: Option<&ToolCallFunction>)
        ensures
            match r {
                Some(f) => self@.function == Some(f@),
                None => self@.function is None,
            },
    {
        match &self.function {
            Some(f) => Some(f),
            None => None,
        }
    }
}

/// A copy of each tool call, in order.
pub fn clone_tool_calls(v: &[ToolCall]) -> (r: Vec<ToolCall>)
    ensures
        r@ == v@,
{
    let mut r: Vec<ToolCall> = Vec::new();
    let mut i: usize = 0;
    while i < v.len()
        invariant
            i <= v.len(),
            r@ == v@.take(i as int),
        decreases v.len() - i,
    {
        r.push(v[i].clone());
        assert(v@.take(i as int).push(v@[i as int]) =~= v@.take(i + 1));
        i = i + 1;
    }
    assert(v@.take(v.len() as int) =~= v@);
    r
}

} // verus!
