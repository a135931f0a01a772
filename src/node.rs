//! Node-graph metadata: data types, ports, links, and the ports that each
//! kind of node declares.

use vstd::prelude::*;
use vstd::string::StrSliceExecFns;
use crate::llm::LLMAPI;
use crate::text::owned;

verus! {

/// Dataflow datatype. Use for checking compatibility between ports.
#[derive(Debug, PartialEq, Eq)]
pub enum DataType {
    String,
    Integer,
    Float,
    Boolean,
    Json,
    Binary,
    List(Box<DataType>),
    MessageEvent,
    MessageList,
    FunctionTools,
    RedisRef,
    MySqlRef,
    Custom(String),
}

/// Two data types are the same: same kind, same element type for lists,
/// same name for custom types.
pub open spec fn same_type(a: DataType, b: DataType) -> bool
    decreases a,
{
    match a {
        DataType::List(x) => match b {
            DataType::List(y) => same_type(*x, *y),
            _ => false,
        },
        DataType::Custom(x) => match b {
            DataType::Custom(y) => x@ == y@,
            _ => false,
        },
        DataType::String => b is String,
        DataType::Integer => b is Integer,
        DataType::Float => b is Float,
        DataType::Boolean => b is Boolean,
        DataType::Json => b is Json,
        DataType::Binary => b is Binary,
        DataType::MessageEvent => b is MessageEvent,
        DataType::MessageList => b is MessageList,
        DataType::FunctionTools => b is FunctionTools,
        DataType::RedisRef => b is RedisRef,
        DataType::MySqlRef => b is MySqlRef,
    }
}

/// Whether two data types are the same.
pub fn types_equal(a: &DataType, b: &DataType) -> (r: bool)
    ensures
        r == same_type(*a, *b),
    decreases *a,
{
    match (a, b) {
        (DataType::List(x), DataType::List(y)) => types_equal(x, y),
        (DataType::Custom(x), DataType::Custom(y)) => crate::text::same_text(x.as_str(), y.as_str()),
        (DataType::String, DataType::String) => true,
        (DataType::Integer, DataType::Integer) => true,
        (DataType::Float, DataType::Float) => true,
        (DataType::Boolean, DataType::Boolean) => true,
        (DataType::Json, DataType::Json) => true,
        (DataType::Binary, DataType::Binary) => true,
        (DataType::MessageEvent, DataType::MessageEvent) => true,
        (DataType::MessageList, DataType::MessageList) => true,
        (DataType::FunctionTools, DataType::FunctionTools) => true,
        (DataType::RedisRef, DataType::RedisRef) => true,
        (DataType::MySqlRef, DataType::MySqlRef) => true,
        _ => false,
    }
}

/// The text that `str::to_uppercase` makes of `s`.
pub uninterp spec fn upper_of(s: Seq<char>) -> Seq<char>;

/// The text that `str::to_lowercase` makes of `s`.
pub uninterp spec fn lower_of(s: Seq<char>) -> Seq<char>;

/// The text that `str::trim` makes of `s`.
pub uninterp spec fn trim_of(s: Seq<char>) -> Seq<char>;

/// Relies on `str::to_uppercase`: the result depends on the text alone.
#[verifier::external_body]
fn to_upper(s: &str) -> (r: String)
    ensures
        r@ == upper_of(s@),
{
    s.to_uppercase()
}

/// Relies on `str::to_lowercase`: the result depends on the text alone.
#[verifier::external_body]
fn to_lower(s: &str) -> (r: String)
    ensures
        r@ == lower_of(s@),
{
    s.to_lowercase()
}

/// Relies on `str::trim`: the text with leading and trailing whitespace
/// removed; the result depends on the text alone.
#[verifier::external_body]
fn trimmed(s: &str) -> (r: &str)
    ensures
        r@ == trim_of(s@),
{
    s.trim()
}

/// The characters of `s` in reverse order.
pub open spec fn reversed(s: Seq<char>) -> Seq<char> {
    Seq::new(s.len(), |i: int| s[s.len() - 1 - i])
}

/// `s` reversed, character by character.
pub fn reverse_text(s: &str) -> (r: String)
    ensures
        r@ == reversed(s@),
{
    let n = s.unicode_len();
    let mut out = String::new();
    let mut k: usize = 0;
    while k < n
        invariant
            n == s@.len(),
            k <= n,
            out@ == reversed(s@).take(k as int),
        decreases n - k,
    {
        crate::text::push_char(&mut out, s.get_char(n - 1 - k));
        k = k + 1;
        assert(out@ =~= reversed(s@).take(k as int));
    }
    assert(reversed(s@).take(n as int) =~= reversed(s@));
    out
}

/// What a text-processing node with `operation` makes of `text`.
pub open spec fn processed(operation: Seq<char>, text: Seq<char>) -> Seq<char> {
    if operation == "uppercase"@ {
        upper_of(text)
    } else if operation == "lowercase"@ {
        lower_of(text)
    } else if operation == "trim"@ {
        trim_of(text)
    } else if operation == "reverse"@ {
        reversed(text)
    } else {
        text
    }
}

/// Node input/output ports
#[derive(Debug)]
pub struct Port {
    pub name: String,
    pub data_type: DataType,
    pub description: Option<String>,
    pub optional: bool,
}

/// `p` is the port `name` of type `t` described by `desc`.
pub open spec fn port_is(p: Port, name: Seq<char>, t: DataType, desc: Seq<char>, optional: bool) -> bool {
    &&& p.name@ == name
    &&& p.data_type == t
    &&& p.description matches Some(d) && d@ == desc
    &&& p.optional == optional
}

impl Port {
    pub fn new(name: &str, data_type: DataType) -> (r: Self)
        ensures
            r.name@ == name@,
            r.data_type == data_type,
            r.description is None,
            !r.optional,
    {
        Port { name: owned(name), data_type, description: None, optional: false }
    }

    pub fn with_description(self, description: &str) -> (r: Self)
        ensures
            r.name == self.name,
            r.data_type == self.data_type,
            r.description matches Some(d) && d@ == description@,
            r.optional == self.optional,
    {
        Port { description: Some(owned(description)), ..self }
    }

    /// Marks the port as one that may be left unconnected.
    pub fn optional(self) -> (r: Self)
        ensures
            r.name == self.name,
            r.data_type == self.data_type,
            r.description == self.description,
            r.optional,
    {
        Port { optional: true, ..self }
    }
}

/// The type of the first value named `name`.
pub open spec fn value_type(values: Seq<(String, DataType)>, name: Seq<char>) -> Option<DataType>
    decreases values.len(),
{
    if values.len() == 0 {
        None
    } else if values[0].0@ == name {
        Some(values[0].1)
    } else {
        value_type(values.drop_first(), name)
    }
}

/// A port accepts the values given for it: none, or one of its type.
pub open spec fn port_accepts(p: Port, values: Seq<(String, DataType)>) -> bool {
    match value_type(values, p.name@) {
        Some(t) => same_type(t, p.data_type),
        None => true,
    }
}

fn find_value<'a>(values: &'a Vec<(String, DataType)>, name: &str) -> (r: Option<&'a DataType>)
    ensures
        r matches Some(t) ==> value_type(values@, name@) == Some(*t),
        r is None ==> value_type(values@, name@) is None,
{
    let mut i: usize = 0;
    assert(values@.skip(0) =~= values@);
    while i < values.len()
        invariant
            i <= values@.len(),
            value_type(values@, name@) == value_type(values@.skip(i as int), name@),
        decreases values@.len() - i,
    {
        assert(values@.skip(i as int).drop_first() =~= values@.skip(i + 1));
        assert(values@.skip(i as int)[0] == values@[i as int]);
        if crate::text::same_text(values[i].0.as_str(), name) {
            return Some(&values[i].1);
        }
        i = i + 1;
    }
    assert(values@.skip(i as int) =~= Seq::<(String, DataType)>::empty());
    None
}

/// The index of the first port given a value of another type, if any.
/// `values` holds the name and type of each value handed to the node.
pub fn first_type_mismatch(ports: &Vec<Port>, values: &Vec<(String, DataType)>) -> (r: Option<usize>)
    ensures
        r matches Some(i) ==> i < ports@.len() && !port_accepts(ports@[i as int], values@) && forall|
            j: int,
        | 0 <= j < i ==> port_accepts(#[trigger] ports@[j], values@),
        r is None ==> forall|j: int| 0 <= j < ports@.len() ==> port_accepts(#[trigger] ports@[j], values@),
{
    let mut i: usize = 0;
    while i < ports.len()
        invariant
            i <= ports@.len(),
            forall|j: int| 0 <= j < i ==> port_accepts(#[trigger] ports@[j], values@),
        decreases ports@.len() - i,
    {
        match find_value(values, ports[i].name.as_str()) {
            Some(t) => {
                if !types_equal(t, &ports[i].data_type) {
                    return Some(i);
                }
            },
            None => {},
        }
        i = i + 1;
    }
    None
}

/// A connection from one node's output port to another node's input port.
#[derive(Debug)]
pub struct Link {
    pub from_node: String,
    pub from_port: String,
    pub to_node: String,
    pub to_port: String,
    pub data_type: DataType,
}

impl Link {
    pub fn new(from_node: &str, from_port: &str, to_node: &str, to_port: &str, data_type: DataType) -> (r:
        Self)
        ensures
            r.from_node@ == from_node@,
            r.from_port@ == from_port@,
            r.to_node@ == to_node@,
            r.to_port@ == to_port@,
            r.data_type == data_type,
    {
        Link {
            from_node: owned(from_node),
            from_port: owned(from_port),
            to_node: owned(to_node),
            to_port: owned(to_port),
            data_type,
        }
    }

    /// Two port types can be linked when they are the same, or both are the link's type.
    pub fn is_type_compatible(&self, from_type: &DataType, to_type: &DataType) -> (r: bool)
        ensures
            r == (same_type(*from_type, *to_type) || same_type(*from_type, self.data_type)
                && same_type(*to_type, self.data_type)),
    {
        types_equal(from_type, to_type) || types_equal(from_type, &self.data_type) && types_equal(
            to_type,
            &self.data_type,
        )
    }
}

pub struct DataTransformNode {
    id: String,
    name: String,
}

impl DataTransformNode {
    pub closed spec fn node_id(&self) -> Seq<char> {
        self.id@
    }

    pub closed spec fn node_name(&self) -> Seq<char> {
        self.name@
    }

    pub fn new(id: &str, name: &str) -> (r: Self)
        ensures
            r.node_id() == id@,
            r.node_name() == name@,
    {
        DataTransformNode { id: owned(id), name: owned(name) }
    }

    pub fn id(&self) -> (r: &str)
        ensures
            r@ == self.node_id(),
    {
        self.id.as_str()
    }

    pub fn name(&self) -> (r: &str)
        ensures
            r@ == self.node_name(),
    {
        self.name.as_str()
    }

    pub fn description(&self) -> (r: Option<&str>)
        ensures
            r matches Some(d) && d@ == "Transform data between different formats"@,
    {
        Some("Transform data between different formats")
    }

    pub fn input_ports(&self) -> (r: Vec<Port>)
        ensures
            r@.len() == 1,
            port_is(r@[0], "input"@, DataType::Json, "Input data in any format"@, false),
    {
        let mut ports: Vec<Port> = Vec::new();
        ports.push(Port::new("input", DataType::Json).with_description("Input data in any format"));
        ports
    }

    pub fn output_ports(&self) -> (r: Vec<Port>)
        ensures
            r@.len() == 1,
            port_is(r@[0], "output"@, DataType::Json, "Transformed data"@, false),
    {
        let mut ports: Vec<Port> = Vec::new();
        ports.push(Port::new("output", DataType::Json).with_description("Transformed data"));
        ports
    }

}

pub struct ConditionalNode {
    id: String,
    name: String,
}

impl ConditionalNode {
    pub closed spec fn node_id(&self) -> Seq<char> {
        self.id@
    }

    pub closed spec fn node_name(&self) -> Seq<char> {
        self.name@
    }

    pub fn new(id: &str, name: &str) -> (r: Self)
        ensures
            r.node_id() == id@,
            r.node_name() == name@,
    {
        ConditionalNode { id: owned(id), name: owned(name) }
    }

    pub fn id(&self) -> (r: &str)
        ensures
            r@ == self.node_id(),
    {
        self.id.as_str()
    }

    pub fn name(&self) -> (r: &str)
        ensures
            r@ == self.node_name(),
    {
        self.name.as_str()
    }

    pub fn description(&self) -> (r: Option<&str>)
        ensures
            r matches Some(d) && d@ == "Conditional branching based on input condition"@,
    {
        Some("Conditional branching based on input condition")
    }

    pub fn input_ports(&self) -> (r: Vec<Port>)
        ensures
            r@.len() == 3,
            port_is(r@[0], "condition"@, DataType::Boolean, "Condition to evaluate"@, false),
            port_is(r@[1], "true_value"@, DataType::Json, "Value to output if condition is true"@, false),
            port_is(r@[2], "false_value"@, DataType::Json, "Value to output if condition is false"@, false),
    {
        let mut ports: Vec<Port> = Vec::new();
        ports.push(Port::new("condition", DataType::Boolean).with_description("Condition to evaluate"));
        ports.push(Port::new("true_value", DataType::Json).with_description("Value to output if condition is true"));
        ports.push(Port::new("false_value", DataType::Json).with_description("Value to output if condition is false"));
        ports
    }

    pub fn output_ports(&self) -> (r: Vec<Port>)
        ensures
            r@.len() == 2,
            port_is(r@[0], "result"@, DataType::Json, "Selected value based on condition"@, false),
            port_is(r@[1], "branch_taken"@, DataType::String, "Which branch was taken"@, false),
    {
        let mut ports: Vec<Port> = Vec::new();
        ports.push(Port::new("result", DataType::Json).with_description("Selected value based on condition"));
        ports.push(Port::new("branch_taken", DataType::String).with_description("Which branch was taken"));
        ports
    }

}

pub struct JsonParserNode {
    id: String,
    name: String,
}

impl JsonParserNode {
    pub closed spec fn node_id(&self) -> Seq<char> {
        self.id@
    }

    pub closed spec fn node_name(&self) -> Seq<char> {
        self.name@
    }

    pub fn new(id: &str, name: &str) -> (r: Self)
        ensures
            r.node_id() == id@,
            r.node_name() == name@,
    {
        JsonParserNode { id: owned(id), name: owned(name) }
    }

    pub fn id(&self) -> (r: &str)
        ensures
            r@ == self.node_id(),
    {
        self.id.as_str()
    }

    pub fn name(&self) -> (r: &str)
        ensures
            r@ == self.node_name(),
    {
        self.name.as_str()
    }

    pub fn description(&self) -> (r: Option<&str>)
        ensures
            r matches Some(d) && d@ == "Parse JSON string to structured data"@,
    {
        Some("Parse JSON string to structured data")
    }

    pub fn input_ports(&self) -> (r: Vec<Port>)
        ensures
            r@.len() == 1,
            port_is(r@[0], "json_string"@, DataType::String, "JSON string to parse"@, false),
    {
        let mut ports: Vec<Port> = Vec::new();
        ports.push(Port::new("json_string", DataType::String).with_description("JSON string to parse"));
        ports
    }

    pub fn output_ports(&self) -> (r: Vec<Port>)
        ensures
            r@.len() == 2,
            port_is(r@[0], "parsed"@, DataType::Json, "Parsed JSON object"@, false),
            port_is(r@[1], "success"@, DataType::Boolean, "Whether parsing was successful"@, false),
    {
        let mut ports: Vec<Port> = Vec::new();
        ports.push(Port::new("parsed", DataType::Json).with_description("Parsed JSON object"));
        ports.push(Port::new("success", DataType::Boolean).with_description("Whether parsing was successful"));
        ports
    }

}

pub struct AggregatorNode {
    id: String,
    name: String,
}

impl AggregatorNode {
    pub closed spec fn node_id(&self) -> Seq<char> {
        self.id@
    }

    pub closed spec fn node_name(&self) -> Seq<char> {
        self.name@
    }

    pub fn new(id: &str, name: &str) -> (r: Self)
        ensures
            r.node_id() == id@,
            r.node_name() == name@,
    {
        AggregatorNode { id: owned(id), name: owned(name) }
    }

    pub fn id(&self) -> (r: &str)
        ensures
            r@ == self.node_id(),
    {
        self.id.as_str()
    }

    pub fn name(&self) -> (r: &str)
        ensures
            r@ == self.node_name(),
    {
        self.name.as_str()
    }

    pub fn description(&self) -> (r: Option<&str>)
        ensures
            r matches Some(d) && d@ == "Aggregate multiple inputs into a single output"@,
    {
        Some("Aggregate multiple inputs into a single output")
    }

    pub fn input_ports(&self) -> (r: Vec<Port>)
        ensures
            r@.len() == 3,
            port_is(r@[0], "input1"@, DataType::Json, "First input"@, false),
            port_is(r@[1], "input2"@, DataType::Json, "Second input"@, false),
            port_is(r@[2], "input3"@, DataType::Json, "Third input (optional)"@, false),
    {
        let mut ports: Vec<Port> = Vec::new();
        ports.push(Port::new("input1", DataType::Json).with_description("First input"));
        ports.push(Port::new("input2", DataType::Json).with_description("Second input"));
        ports.push(Port::new("input3", DataType::Json).with_description("Third input (optional)"));
        ports
    }

    pub fn output_ports(&self) -> (r: Vec<Port>)
        ensures
            r@.len() == 1,
            port_is(r@[0], "aggregated"@, DataType::Json, "Aggregated result"@, false),
    {
        let mut ports: Vec<Port> = Vec::new();
        ports.push(Port::new("aggregated", DataType::Json).with_description("Aggregated result"));
        ports
    }

}

pub struct DelayNode {
    id: String,
    name: String,
}

impl DelayNode {
    pub closed spec fn node_id(&self) -> Seq<char> {
        self.id@
    }

    pub closed spec fn node_name(&self) -> Seq<char> {
        self.name@
    }

    pub fn new(id: &str, name: &str) -> (r: Self)
        ensures
            r.node_id() == id@,
            r.node_name() == name@,
    {
        DelayNode { id: owned(id), name: owned(name) }
    }

    pub fn id(&self) -> (r: &str)
        ensures
            r@ == self.node_id(),
    {
        self.id.as_str()
    }

    pub fn name(&self) -> (r: &str)
        ensures
            r@ == self.node_name(),
    {
        self.name.as_str()
    }

    pub fn description(&self) -> (r: Option<&str>)
        ensures
            r matches Some(d) && d@ == "Delay data flow by specified duration"@,
    {
        Some("Delay data flow by specified duration")
    }

    pub fn input_ports(&self) -> (r: Vec<Port>)
        ensures
            r@.len() == 2,
            port_is(r@[0], "data"@, DataType::Json, "Data to pass through"@, false),
            port_is(r@[1], "delay_ms"@, DataType::Integer, "Delay in milliseconds"@, false),
    {
        let mut ports: Vec<Port> = Vec::new();
        ports.push(Port::new("data", DataType::Json).with_description("Data to pass through"));
        ports.push(Port::new("delay_ms", DataType::Integer).with_description("Delay in milliseconds"));
        ports
    }

    pub fn output_ports(&self) -> (r: Vec<Port>)
        ensures
            r@.len() == 1,
            port_is(r@[0], "output"@, DataType::Json, "Data after delay"@, false),
    {
        let mut ports: Vec<Port> = Vec::new();
        ports.push(Port::new("output", DataType::Json).with_description("Data after delay"));
        ports
    }

}

pub struct RedisNode {
    id: String,
    name: String,
}

impl RedisNode {
    pub closed spec fn node_id(&self) -> Seq<char> {
        self.id@
    }

    pub closed spec fn node_name(&self) -> Seq<char> {
        self.name@
    }

    pub fn new(id: &str, name: &str) -> (r: Self)
        ensures
            r.node_id() == id@,
            r.node_name() == name@,
    {
        RedisNode { id: owned(id), name: owned(name) }
    }

    pub fn id(&self) -> (r: &str)
        ensures
            r@ == self.node_id(),
    {
        self.id.as_str()
    }

    pub fn name(&self) -> (r: &str)
        ensures
            r@ == self.node_name(),
    {
        self.name.as_str()
    }

    pub fn description(&self) -> (r: Option<&str>)
        ensures
            r matches Some(d) && d@ == "Redis连接配置 - 构建Redis连接URL并输出引用"@,
    {
        Some("Redis连接配置 - 构建Redis连接URL并输出引用")
    }

    pub fn input_ports(&self) -> (r: Vec<Port>)
        ensures
            r@.len() == 6,
            port_is(r@[0], "redis_host"@, DataType::String, "Redis主机地址"@, false),
            port_is(r@[1], "redis_port"@, DataType::Integer, "Redis端口号"@, false),
            port_is(r@[2], "redis_db"@, DataType::Integer, "Redis数据库编号 (默认: 0)"@, true),
            port_is(r@[3], "redis_password"@, DataType::String, "Redis密码"@, true),
            port_is(r@[4], "reconnect_max_attempts"@, DataType::Integer, "最大重连次数 (默认: 3)"@, true),
            port_is(r@[5], "reconnect_interval_secs"@, DataType::Integer, "重连间隔秒数 (默认: 60)"@, true),
    {
        let mut ports: Vec<Port> = Vec::new();
        ports.push(Port::new("redis_host", DataType::String).with_description("Redis主机地址"));
        ports.push(Port::new("redis_port", DataType::Integer).with_description("Redis端口号"));
        ports.push(Port::new("redis_db", DataType::Integer).with_description("Redis数据库编号 (默认: 0)").optional());
        ports.push(Port::new("redis_password", DataType::String).with_description("Redis密码").optional());
        ports.push(Port::new("reconnect_max_attempts", DataType::Integer).with_description("最大重连次数 (默认: 3)").optional());
        ports.push(Port::new("reconnect_interval_secs", DataType::Integer).with_description("重连间隔秒数 (默认: 60)").optional());
        ports
    }

    pub fn output_ports(&self) -> (r: Vec<Port>)
        ensures
            r@.len() == 1,
            port_is(r@[0], "redis_ref"@, DataType::RedisRef, "Redis连接配置引用"@, false),
    {
        let mut ports: Vec<Port> = Vec::new();
        ports.push(Port::new("redis_ref", DataType::RedisRef).with_description("Redis连接配置引用"));
        ports
    }

}

pub struct MySqlNode {
    id: String,
    name: String,
}

impl MySqlNode {
    pub closed spec fn node_id(&self) -> Seq<char> {
        self.id@
    }

    pub closed spec fn node_name(&self) -> Seq<char> {
        self.name@
    }

    pub fn new(id: &str, name: &str) -> (r: Self)
        ensures
            r.node_id() == id@,
            r.node_name() == name@,
    {
        MySqlNode { id: owned(id), name: owned(name) }
    }

    pub fn id(&self) -> (r: &str)
        ensures
            r@ == self.node_id(),
    {
        self.id.as_str()
    }

    pub fn name(&self) -> (r: &str)
        ensures
            r@ == self.node_name(),
    {
        self.name.as_str()
    }

    pub fn description(&self) -> (r: Option<&str>)
        ensures
            r matches Some(d) && d@ == "MySQL连接配置 - 构建MySQL连接URL并输出引用"@,
    {
        Some("MySQL连接配置 - 构建MySQL连接URL并输出引用")
    }

    pub fn input_ports(&self) -> (r: Vec<Port>)
        ensures
            r@.len() == 7,
            port_is(r@[0], "mysql_host"@, DataType::String, "MySQL主机地址"@, false),
            port_is(r@[1], "mysql_port"@, DataType::Integer, "MySQL端口号"@, false),
            port_is(r@[2], "mysql_user"@, DataType::String, "MySQL用户名"@, false),
            port_is(r@[3], "mysql_password"@, DataType::String, "MySQL密码"@, false),
            port_is(r@[4], "mysql_database"@, DataType::String, "MySQL数据库名"@, false),
            port_is(r@[5], "reconnect_max_attempts"@, DataType::Integer, "最大重连次数 (默认: 3)"@, true),
            port_is(r@[6], "reconnect_interval_secs"@, DataType::Integer, "重连间隔秒数 (默认: 60)"@, true),
    {
        let mut ports: Vec<Port> = Vec::new();
        ports.push(Port::new("mysql_host", DataType::String).with_description("MySQL主机地址"));
        ports.push(Port::new("mysql_port", DataType::Integer).with_description("MySQL端口号"));
        ports.push(Port::new("mysql_user", DataType::String).with_description("MySQL用户名"));
        ports.push(Port::new("mysql_password", DataType::String).with_description("MySQL密码"));
        ports.push(Port::new("mysql_database", DataType::String).with_description("MySQL数据库名"));
        ports.push(Port::new("reconnect_max_attempts", DataType::Integer).with_description("最大重连次数 (默认: 3)").optional());
        ports.push(Port::new("reconnect_interval_secs", DataType::Integer).with_description("重连间隔秒数 (默认: 60)").optional());
        ports
    }

    pub fn output_ports(&self) -> (r: Vec<Port>)
        ensures
            r@.len() == 1,
            port_is(r@[0], "mysql_ref"@, DataType::MySqlRef, "MySQL连接配置引用"@, false),
    {
        let mut ports: Vec<Port> = Vec::new();
        ports.push(Port::new("mysql_ref", DataType::MySqlRef).with_description("MySQL连接配置引用"));
        ports
    }

}

pub struct BotAdapterNode {
    id: String,
    name: String,
}

impl BotAdapterNode {
    pub closed spec fn node_id(&self) -> Seq<char> {
        self.id@
    }

    pub closed spec fn node_name(&self) -> Seq<char> {
        self.name@
    }

    pub fn new(id: &str, name: &str) -> (r: Self)
        ensures
            r.node_id() == id@,
            r.node_name() == name@,
    {
        BotAdapterNode { id: owned(id), name: owned(name) }
    }

    pub fn id(&self) -> (r: &str)
        ensures
            r@ == self.node_id(),
    {
        self.id.as_str()
    }

    pub fn name(&self) -> (r: &str)
        ensures
            r@ == self.node_name(),
    {
        self.name.as_str()
    }

    pub fn description(&self) -> (r: Option<&str>)
        ensures
            r matches Some(d) && d@ == "QQ Bot Adapter - receives messages from QQ server"@,
    {
        Some("QQ Bot Adapter - receives messages from QQ server")
    }

    pub fn input_ports(&self) -> (r: Vec<Port>)
        ensures
            r@.len() == 2,
            port_is(r@[0], "trigger"@, DataType::Boolean, "Trigger to start receiving messages"@, false),
            port_is(r@[1], "qq_id"@, DataType::String, "QQ ID to login"@, true),
    {
        let mut ports: Vec<Port> = Vec::new();
        ports.push(Port::new("trigger", DataType::Boolean).with_description("Trigger to start receiving messages"));
        ports.push(Port::new("qq_id", DataType::String).with_description("QQ ID to login").optional());
        ports
    }

    pub fn output_ports(&self) -> (r: Vec<Port>)
        ensures
            r@.len() == 4,
            port_is(r@[0], "message"@, DataType::MessageEvent, "Raw message event from QQ server"@, false),
            port_is(r@[1], "message_type"@, DataType::String, "Type of the message"@, false),
            port_is(r@[2], "user_id"@, DataType::String, "User ID who sent the message"@, false),
            port_is(r@[3], "content"@, DataType::String, "Message content"@, false),
    {
        let mut ports: Vec<Port> = Vec::new();
        ports.push(Port::new("message", DataType::MessageEvent).with_description("Raw message event from QQ server"));
        ports.push(Port::new("message_type", DataType::String).with_description("Type of the message"));
        ports.push(Port::new("user_id", DataType::String).with_description("User ID who sent the message"));
        ports.push(Port::new("content", DataType::String).with_description("Message content"));
        ports
    }

}

pub struct MessageSenderNode {
    id: String,
    name: String,
}

impl MessageSenderNode {
    pub closed spec fn node_id(&self) -> Seq<char> {
        self.id@
    }

    pub closed spec fn node_name(&self) -> Seq<char> {
        self.name@
    }

    pub fn new(id: &str, name: &str) -> (r: Self)
        ensures
            r.node_id() == id@,
            r.node_name() == name@,
    {
        MessageSenderNode { id: owned(id), name: owned(name) }
    }

    pub fn id(&self) -> (r: &str)
        ensures
            r@ == self.node_id(),
    {
        self.id.as_str()
    }

    pub fn name(&self) -> (r: &str)
        ensures
            r@ == self.node_name(),
    {
        self.name.as_str()
    }

    pub fn description(&self) -> (r: Option<&str>)
        ensures
            r matches Some(d) && d@ == "Send message back to QQ server"@,
    {
        Some("Send message back to QQ server")
    }

    pub fn input_ports(&self) -> (r: Vec<Port>)
        ensures
            r@.len() == 3,
            port_is(r@[0], "target_id"@, DataType::String, "Target user or group ID"@, false),
            port_is(r@[1], "content"@, DataType::String, "Message content to send"@, false),
            port_is(r@[2], "message_type"@, DataType::String, "Type of message to send"@, false),
    {
        let mut ports: Vec<Port> = Vec::new();
        ports.push(Port::new("target_id", DataType::String).with_description("Target user or group ID"));
        ports.push(Port::new("content", DataType::String).with_description("Message content to send"));
        ports.push(Port::new("message_type", DataType::String).with_description("Type of message to send"));
        ports
    }

    pub fn output_ports(&self) -> (r: Vec<Port>)
        ensures
            r@.len() == 2,
            port_is(r@[0], "success"@, DataType::Boolean, "Whether the message was sent successfully"@, false),
            port_is(r@[1], "response"@, DataType::Json, "Response from the server"@, false),
    {
        let mut ports: Vec<Port> = Vec::new();
        ports.push(Port::new("success", DataType::Boolean).with_description("Whether the message was sent successfully"));
        ports.push(Port::new("response", DataType::Json).with_description("Response from the server"));
        ports
    }

}

pub struct LLMNode {
    id: String,
    name: String,
    llm_api: Option<LLMAPI>,
    system_prompt: Option<String>,
}

impl LLMNode {
    pub closed spec fn api(&self) -> Option<LLMAPI> {
        self.llm_api
    }

    pub closed spec fn prompt(&self) -> Option<String> {
        self.system_prompt
    }

    pub closed spec fn node_id(&self) -> Seq<char> {
        self.id@
    }

    pub closed spec fn node_name(&self) -> Seq<char> {
        self.name@
    }

    pub fn new(id: &str, name: &str) -> (r: Self)
        ensures
            r.node_id() == id@,
            r.node_name() == name@,
            r.api() is None,
            r.prompt() is None,
    {
        LLMNode { id: owned(id), name: owned(name), llm_api: None, system_prompt: None }
    }

    pub fn with_llm_api(self, llm_api: LLMAPI) -> (r: Self)
        ensures
            r.node_id() == self.node_id(),
            r.node_name() == self.node_name(),
            r.api() == Some(llm_api),
            r.prompt() == self.prompt(),
    {
        LLMNode { llm_api: Some(llm_api), ..self }
    }

    pub fn with_system_prompt(self, prompt: &str) -> (r: Self)
        ensures
            r.node_id() == self.node_id(),
            r.node_name() == self.node_name(),
            r.api() == self.api(),
            r.prompt() matches Some(p) && p@ == prompt@,
    {
        LLMNode { system_prompt: Some(owned(prompt)), ..self }
    }

    pub fn id(&self) -> (r: &str)
        ensures
            r@ == self.node_id(),
    {
        self.id.as_str()
    }

    pub fn name(&self) -> (r: &str)
        ensures
            r@ == self.node_name(),
    {
        self.name.as_str()
    }

    pub fn description(&self) -> (r: Option<&str>)
        ensures
            r matches Some(d) && d@ == "LLM API Node - processes text with language model"@,
    {
        Some("LLM API Node - processes text with language model")
    }

    pub fn input_ports(&self) -> (r: Vec<Port>)
        ensures
            r@.len() == 3,
            port_is(r@[0], "prompt"@, DataType::String, "User prompt to send to LLM"@, false),
            port_is(r@[1], "messages"@, DataType::Json, "Full message history (optional)"@, false),
            port_is(r@[2], "max_tokens"@, DataType::Integer, "Maximum tokens in response (optional)"@, false),
    {
        let mut ports: Vec<Port> = Vec::new();
        ports.push(Port::new("prompt", DataType::String).with_description("User prompt to send to LLM"));
        ports.push(Port::new("messages", DataType::Json).with_description("Full message history (optional)"));
        ports.push(Port::new("max_tokens", DataType::Integer).with_description("Maximum tokens in response (optional)"));
        ports
    }

    pub fn output_ports(&self) -> (r: Vec<Port>)
        ensures
            r@.len() == 3,
            port_is(r@[0], "response"@, DataType::String, "LLM response text"@, false),
            port_is(r@[1], "full_message"@, DataType::Json, "Complete message object from LLM"@, false),
            port_is(r@[2], "token_usage"@, DataType::Json, "Token usage information"@, false),
    {
        let mut ports: Vec<Port> = Vec::new();
        ports.push(Port::new("response", DataType::String).with_description("LLM response text"));
        ports.push(Port::new("full_message", DataType::Json).with_description("Complete message object from LLM"));
        ports.push(Port::new("token_usage", DataType::Json).with_description("Token usage information"));
        ports
    }

}

pub struct AgentNode {
    id: String,
    name: String,
    agent_type: String,
}

impl AgentNode {
    pub fn agent_type(&self) -> (r: &str)
        ensures
            r@ == self.agent_type_spec(),
    {
        self.agent_type.as_str()
    }

    pub closed spec fn agent_type_spec(&self) -> Seq<char> {
        self.agent_type@
    }

    pub closed spec fn node_id(&self) -> Seq<char> {
        self.id@
    }

    pub closed spec fn node_name(&self) -> Seq<char> {
        self.name@
    }

    pub fn new(id: &str, name: &str, agent_type: &str) -> (r: Self)
        ensures
            r.node_id() == id@,
            r.node_name() == name@,
            r.agent_type_spec() == agent_type@,
    {
        AgentNode { id: owned(id), name: owned(name), agent_type: owned(agent_type) }
    }

    pub fn id(&self) -> (r: &str)
        ensures
            r@ == self.node_id(),
    {
        self.id.as_str()
    }

    pub fn name(&self) -> (r: &str)
        ensures
            r@ == self.node_name(),
    {
        self.name.as_str()
    }

    pub fn description(&self) -> (r: Option<&str>)
        ensures
            r matches Some(d) && d@ == "AI Agent with tool-calling capabilities"@,
    {
        Some("AI Agent with tool-calling capabilities")
    }

    pub fn input_ports(&self) -> (r: Vec<Port>)
        ensures
            r@.len() == 3,
            port_is(r@[0], "task"@, DataType::String, "Task description for the agent"@, false),
            port_is(r@[1], "context"@, DataType::Json, "Additional context information"@, false),
            port_is(r@[2], "tools"@, DataType::Json, "Available tools for the agent"@, false),
    {
        let mut ports: Vec<Port> = Vec::new();
        ports.push(Port::new("task", DataType::String).with_description("Task description for the agent"));
        ports.push(Port::new("context", DataType::Json).with_description("Additional context information"));
        ports.push(Port::new("tools", DataType::Json).with_description("Available tools for the agent"));
        ports
    }

    pub fn output_ports(&self) -> (r: Vec<Port>)
        ensures
            r@.len() == 3,
            port_is(r@[0], "result"@, DataType::String, "Agent execution result"@, false),
            port_is(r@[1], "tool_calls"@, DataType::Json, "Tools called during execution"@, false),
            port_is(r@[2], "execution_log"@, DataType::Json, "Detailed execution log"@, false),
    {
        let mut ports: Vec<Port> = Vec::new();
        ports.push(Port::new("result", DataType::String).with_description("Agent execution result"));
        ports.push(Port::new("tool_calls", DataType::Json).with_description("Tools called during execution"));
        ports.push(Port::new("execution_log", DataType::Json).with_description("Detailed execution log"));
        ports
    }

}

pub struct TextProcessorNode {
    id: String,
    name: String,
    operation: String,
}

impl TextProcessorNode {
    /// Applies the node's operation to `text`; an unknown operation keeps it.
    pub fn process(&self, text: &str) -> (r: String)
        ensures
            r@ == processed(self.operation_spec(), text@),
    {
        let op = self.operation.as_str();
        if crate::text::same_text(op, "uppercase") {
            to_upper(text)
        } else if crate::text::same_text(op, "lowercase") {
            to_lower(text)
        } else if crate::text::same_text(op, "trim") {
            owned(trimmed(text))
        } else if crate::text::same_text(op, "reverse") {
            reverse_text(text)
        } else {
            owned(text)
        }
    }

    pub fn operation(&self) -> (r: &str)
        ensures
            r@ == self.operation_spec(),
    {
        self.operation.as_str()
    }

    pub closed spec fn operation_spec(&self) -> Seq<char> {
        self.operation@
    }

    pub closed spec fn node_id(&self) -> Seq<char> {
        self.id@
    }

    pub closed spec fn node_name(&self) -> Seq<char> {
        self.name@
    }

    pub fn new(id: &str, name: &str, operation: &str) -> (r: Self)
        ensures
            r.node_id() == id@,
            r.node_name() == name@,
            r.operation_spec() == operation@,
    {
        TextProcessorNode { id: owned(id), name: owned(name), operation: owned(operation) }
    }

    pub fn id(&self) -> (r: &str)
        ensures
            r@ == self.node_id(),
    {
        self.id.as_str()
    }

    pub fn name(&self) -> (r: &str)
        ensures
            r@ == self.node_name(),
    {
        self.name.as_str()
    }

    pub fn description(&self) -> (r: Option<&str>)
        ensures
            r matches Some(d) && d@ == "Text processing node for various text operations"@,
    {
        Some("Text processing node for various text operations")
    }

    pub fn input_ports(&self) -> (r: Vec<Port>)
        ensures
            r@.len() == 2,
            port_is(r@[0], "text"@, DataType::String, "Input text to process"@, false),
            port_is(r@[1], "params"@, DataType::Json, "Processing parameters"@, false),
    {
        let mut ports: Vec<Port> = Vec::new();
        ports.push(Port::new("text", DataType::String).with_description("Input text to process"));
        ports.push(Port::new("params", DataType::Json).with_description("Processing parameters"));
        ports
    }

    pub fn output_ports(&self) -> (r: Vec<Port>)
        ensures
            r@.len() == 2,
            port_is(r@[0], "processed_text"@, DataType::String, "Processed text output"@, false),
            port_is(r@[1], "metadata"@, DataType::Json, "Processing metadata"@, false),
    {
        let mut ports: Vec<Port> = Vec::new();
        ports.push(Port::new("processed_text", DataType::String).with_description("Processed text output"));
        ports.push(Port::new("metadata", DataType::Json).with_description("Processing metadata"));
        ports
    }

}

} // verus!
