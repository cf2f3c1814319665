//! The tool registry: descriptors of local tools (name, description, JSON
//! Schema of the arguments) and of remote MCP tools. The handlers themselves
//! are kept by the host, keyed by the same names.

use vstd::prelude::*;

use crate::error::{fails_with, Error};
use crate::protocol::json::{json_view, Json};
use crate::protocol::models::{is_invalid_event, mcp_config_ok, ApprovalFilter, McpToolConfig, RequireApproval, Tool};

verus! {

/// A local tool as advertised to the server.
#[derive(Debug)]
pub struct ToolDefinition {
    pub name: String,
    pub description: Option<String>,
    pub schema: Json,
}

/// A function call issued by the model, correlated to the response, item and
/// output index that issued it.
#[derive(Debug)]
pub struct ToolCall {
    pub name: String,
    pub call_id: String,
    pub arguments: Json,
    pub response_id: Option<String>,
    pub item_id: Option<String>,
    pub output_index: Option<u32>,
}

/// What a handler produced for a call.
#[derive(Debug)]
pub struct ToolResult {
    pub call_id: String,
    pub output: Json,
}

pub struct ToolRegistry {
    defs: Vec<ToolDefinition>,
    mcp: Vec<McpToolConfig>,
}

/// Whether some local tool is registered under `name`.
pub open spec fn has_definition(defs: Seq<ToolDefinition>, name: Seq<char>) -> bool {
    exists|i: int| 0 <= i < defs.len() && (#[trigger] defs[i]).name@ == name
}

fn copy_opt_text(s: &Option<String>) -> (r: Option<String>)
    ensures
        r == *s,
{
    match s {
        Some(v) => Some(v.clone()),
        None => None,
    }
}

pub open spec fn opt_seq<T>(v: Option<Vec<T>>) -> Option<Seq<T>> {
    match v {
        Some(x) => Some(x@),
        None => None,
    }
}

pub open spec fn same_approval(a: Option<RequireApproval>, b: Option<RequireApproval>) -> bool {
    match (a, b) {
        (None, None) => true,
        (Some(RequireApproval::Mode(x)), Some(RequireApproval::Mode(y))) => x == y,
        (Some(RequireApproval::Filter(x)), Some(RequireApproval::Filter(y))) => x.tool_names@ == y.tool_names@,
        _ => false,
    }
}

/// Two remote descriptors that say the same thing.
pub open spec fn same_remote(a: McpToolConfig, b: McpToolConfig) -> bool {
    &&& a.server_label == b.server_label
    &&& a.server_url == b.server_url
    &&& a.connector_id == b.connector_id
    &&& opt_seq(a.headers) == opt_seq(b.headers)
    &&& a.authorization == b.authorization
    &&& opt_seq(a.allowed_tools) == opt_seq(b.allowed_tools)
    &&& same_approval(a.require_approval, b.require_approval)
    &&& a.server_description == b.server_description
}

fn copy_texts(v: &Vec<String>) -> (r: Vec<String>)
    ensures
        r@ == v@,
{
    let mut out: Vec<String> = Vec::new();
    let mut i: usize = 0;
    while i < v.len()
        invariant
            0 <= i <= v.len(),
            out@ == v@.subrange(0, i as int),
        decreases v.len() - i,
    {
        out.push(v[i].clone());
        assert(out@ =~= v@.subrange(0, i + 1));
        i = i + 1;
    }
    assert(out@ =~= v@);
    out
}

fn copy_pairs(v: &Vec<(String, String)>) -> (r: Vec<(String, String)>)
    ensures
        r@ == v@,
{
    let mut out: Vec<(String, String)> = Vec::new();
    let mut i: usize = 0;
    while i < v.len()
        invariant
            0 <= i <= v.len(),
            out@ == v@.subrange(0, i as int),
        decreases v.len() - i,
    {
        out.push((v[i].0.clone(), v[i].1.clone()));
        assert(out@ =~= v@.subrange(0, i + 1));
        i = i + 1;
    }
    assert(out@ =~= v@);
    out
}

fn copy_remote(c: &McpToolConfig) -> (r: McpToolConfig)
    ensures
        same_remote(r, *c),
{
    let headers = match &c.headers {
        Some(h) => Some(copy_pairs(h)),
        None => None,
    };
    let allowed_tools = match &c.allowed_tools {
        Some(t) => Some(copy_texts(t)),
        None => None,
    };
    let require_approval = match &c.require_approval {
        Some(RequireApproval::Mode(m)) => Some(RequireApproval::Mode(*m)),
        Some(RequireApproval::Filter(f)) => Some(RequireApproval::Filter(ApprovalFilter { tool_names: copy_texts(&f.tool_names) })),
        None => None,
    };
    McpToolConfig {
        server_label: c.server_label.clone(),
        server_url: copy_opt_text(&c.server_url),
        connector_id: copy_opt_text(&c.connector_id),
        headers,
        authorization: copy_opt_text(&c.authorization),
        allowed_tools,
        require_approval,
        server_description: copy_opt_text(&c.server_description),
    }
}

/// The wire tool a local definition is advertised as.
pub open spec fn exports_definition(t: Tool, d: ToolDefinition) -> bool {
    t matches Tool::Function { name, description, parameters }
        && name == d.name && description == d.description && json_view(parameters) == json_view(d.schema)
}

impl ToolRegistry {
    pub closed spec fn definitions_view(&self) -> Seq<ToolDefinition> {
        self.defs@
    }

    pub closed spec fn remotes_view(&self) -> Seq<McpToolConfig> {
        self.mcp@
    }

    /// An empty registry.
    pub fn new() -> (r: ToolRegistry)
        ensures
            r.definitions_view().len() == 0,
            r.remotes_view().len() == 0,
    {
        ToolRegistry { defs: Vec::new(), mcp: Vec::new() }
    }

    /// The local tool descriptors, in registration order.
    pub fn definitions(&self) -> (r: &Vec<ToolDefinition>)
        ensures
            r@ == self.definitions_view(),
    {
        &self.defs
    }

    /// The remote tool descriptors, in registration order.
    pub fn remotes(&self) -> (r: &Vec<McpToolConfig>)
        ensures
            r@ == self.remotes_view(),
    {
        &self.mcp
    }

    /// Whether no tool of either kind is registered.
    pub fn is_empty(&self) -> (r: bool)
        ensures
            r == (self.definitions_view().len() == 0 && self.remotes_view().len() == 0),
    {
        self.defs.len() == 0 && self.mcp.len() == 0
    }

    /// Records the descriptor of a local tool; its handler is kept by the host
    /// under the same name.
    pub fn register_definition(&mut self, def: ToolDefinition)
        ensures
            final(self).definitions_view() == old(self).definitions_view().push(def),
            final(self).remotes_view() == old(self).remotes_view(),
    {
        self.defs.push(def);
    }

    /// Registers a remote tool, after checking that it names a server URL or
    /// a connector id. A rejected descriptor leaves the registry unchanged.
    pub fn mcp_tool(&mut self, config: McpToolConfig) -> (r: Result<(), Error>)
        ensures
            r is Ok <==> mcp_config_ok(config),
            r is Err ==> is_invalid_event(r),
            r is Ok ==> final(self).remotes_view() == old(self).remotes_view().push(config),
            r is Err ==> final(self).remotes_view() == old(self).remotes_view(),
            final(self).definitions_view() == old(self).definitions_view(),
    {
        config.validate()?;
        self.mcp.push(config);
        Ok(())
    }

    /// Checks that a call names a registered local tool.
    pub fn check_call(&self, call: &ToolCall) -> (r: Result<(), Error>)
        ensures
            r is Ok <==> has_definition(self.definitions_view(), call.name@),
            r is Err ==> fails_with(r, Some("unknown tool: "@ + call.name@)),
    {
        let mut i: usize = 0;
        while i < self.defs.len()
            invariant
                0 <= i <= self.defs.len(),
                forall|j: int| 0 <= j < i ==> (#[trigger] self.defs@[j]).name@ != call.name@,
            decreases self.defs.len() - i,
        {
            if self.defs[i].name == call.name {
                return Ok(());
            }
            i = i + 1;
        }
        let mut msg = "unknown tool: ".to_owned();
        msg.append(call.name.as_str());
        Err(Error::InvalidClientEvent(msg))
    }

    /// Every registered tool as attached to a session or response
    /// configuration: the local tools first, then the remote ones, each in
    /// registration order.
    pub fn try_as_tools(&self) -> (r: Vec<Tool>)
        ensures
            r@.len() == self.definitions_view().len() + self.remotes_view().len(),
            forall|i: int| 0 <= i < self.definitions_view().len() ==>
                exports_definition(#[trigger] r@[i], self.definitions_view()[i]),
            forall|i: int| 0 <= i < self.remotes_view().len() ==>
                (#[trigger] r@[self.definitions_view().len() + i] matches Tool::Mcp(c)
                    && same_remote(c, self.remotes_view()[i])),
    {
        let mut tools: Vec<Tool> = Vec::new();
        let mut i: usize = 0;
        while i < self.defs.len()
            invariant
                0 <= i <= self.defs.len(),
                tools@.len() == i,
                forall|j: int| 0 <= j < i ==> exports_definition(#[trigger] tools@[j], self.defs@[j]),
            decreases self.defs.len() - i,
        {
            let d = &self.defs[i];
            tools.push(Tool::Function {
                name: d.name.clone(),
                description: copy_opt_text(&d.description),
                parameters: d.schema.deep_clone(),
            });
            i = i + 1;
        }
        let mut k: usize = 0;
        while k < self.mcp.len()
            invariant
                0 <= k <= self.mcp.len(),
                tools@.len() == self.defs@.len() + k,
                forall|j: int| 0 <= j < self.defs@.len() ==> exports_definition(#[trigger] tools@[j], self.defs@[j]),
                forall|j: int| 0 <= j < k ==>
                    (#[trigger] tools@[self.defs@.len() + j] matches Tool::Mcp(c) && same_remote(c, self.mcp@[j])),
            decreases self.mcp.len() - k,
        {
            tools.push(Tool::Mcp(copy_remote(&self.mcp[k])));
            k = k + 1;
        }
        tools
    }
}

} // verus!
