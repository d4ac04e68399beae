//! The QMP command vocabulary and its one-line JSON wire form.
use vstd::prelude::*;
use crate::text::hex_digit;

verus! {

/// The commands that this client sends.
#[derive(Clone, Copy, Debug, PartialEq, Eq, Structural)]
pub enum Command {
    Handshake,
    QomList,
    QomGet,
    QueryCommands,
    DeviceAdd,
    DeviceRemove,
}

/// The arguments of a command; each variant belongs to exactly one
/// `Command`. Optional fields that are `None` are left out of the wire form.
#[derive(Clone, Copy, Debug)]
pub enum Argument<'a> {
    Handshake {},
    QueryCommands {},
    QomList { path: &'a str },
    QomGet { path: &'a str, property: &'a str },
    DeviceAdd {
        id: &'a str,
        driver: &'a str,
        bus: &'a str,
        addr: Option<&'a str>,
        vendorid: Option<&'a str>,
        productid: Option<&'a str>,
    },
    DeviceRemove { id: &'a str },
}

/// One request: `{"execute": <command>, "arguments": <argument>}`.
#[derive(Clone, Copy, Debug)]
pub struct QMPMessage<'a> {
    pub execute: Command,
    pub arguments: Argument<'a>,
}

/// The command that goes with each argument shape.
pub open spec fn command_for(a: Argument) -> Command {
    match a {
        Argument::Handshake {  } => Command::Handshake,
        Argument::QueryCommands {  } => Command::QueryCommands,
        Argument::QomList { .. } => Command::QomList,
        Argument::QomGet { .. } => Command::QomGet,
        Argument::DeviceAdd { .. } => Command::DeviceAdd,
        Argument::DeviceRemove { .. } => Command::DeviceRemove,
    }
}

/// The command's name on the wire.
pub open spec fn command_name(c: Command) -> Seq<char> {
    match c {
        Command::Handshake => "qmp_capabilities"@,
        Command::QomList => "qom-list"@,
        Command::QomGet => "qom-get"@,
        Command::QueryCommands => "query-commands"@,
        Command::DeviceAdd => "device_add"@,
        Command::DeviceRemove => "device_del"@,
    }
}

/// Pairs an argument with its command.
pub fn build_command(args: Argument) -> (r: QMPMessage)
    ensures
        r.execute == command_for(args),
        r.arguments == args,
{
    match args {
        Argument::Handshake {  } => QMPMessage { execute: Command::Handshake, arguments: args },
        Argument::QomList { .. } => QMPMessage { execute: Command::QomList, arguments: args },
        Argument::QomGet { .. } => QMPMessage { execute: Command::QomGet, arguments: args },
        Argument::QueryCommands {  } => QMPMessage {
            execute: Command::QueryCommands,
            arguments: args,
        },
        Argument::DeviceAdd { .. } => QMPMessage { execute: Command::DeviceAdd, arguments: args },
        Argument::DeviceRemove { .. } => QMPMessage {
            execute: Command::DeviceRemove,
            arguments: args,
        },
    }
}

impl Command {
    pub fn name(&self) -> (r: &'static str)
        ensures
            r@ == command_name(*self),
    {
        match self {
            Command::Handshake => "qmp_capabilities",
            Command::QomList => "qom-list",
            Command::QomGet => "qom-get",
            Command::QueryCommands => "query-commands",
            Command::DeviceAdd => "device_add",
            Command::DeviceRemove => "device_del",
        }
    }
}

/// How JSON string syntax writes one character: `"` and `\\` behind a
/// backslash, the common control characters by their short escapes, the
/// other control characters as `\u00xx` in lowercase hex, and every other
/// character as it is.
pub open spec fn json_escape(c: char) -> Seq<char> {
    if c == '"' {
        seq!['\\', '"']
    } else if c == '\\' {
        seq!['\\', '\\']
    } else if c == '\u{8}' {
        seq!['\\', 'b']
    } else if c == '\u{c}' {
        seq!['\\', 'f']
    } else if c == '\n' {
        seq!['\\', 'n']
    } else if c == '\r' {
        seq!['\\', 'r']
    } else if c == '\t' {
        seq!['\\', 't']
    } else if ' ' > c {
        seq!['\\', 'u', '0', '0', hex_digit((c as u32) as int / 16 % 16), hex_digit((c as u32) as int % 16)]
    } else {
        seq![c]
    }
}

pub open spec fn json_escaped(s: Seq<char>) -> Seq<char>
    decreases s.len(),
{
    if s.len() == 0 {
        Seq::empty()
    } else {
        json_escaped(s.drop_last()) + json_escape(s.last())
    }
}

/// A string value in JSON: escaped, between quotes.
#[verifier::opaque]
pub open spec fn json_quoted(s: Seq<char>) -> Seq<char> {
    seq!['"'] + json_escaped(s) + seq!['"']
}

/// Characters that JSON string syntax writes as they are.
pub open spec fn json_plain(s: Seq<char>) -> bool {
    forall|k: int| 0 <= k < s.len() ==> {
        let c = #[trigger] s[k];
        c >= ' ' && c != '"' && c != '\\'
    }
}

/// No control character, so in particular no line break.
pub open spec fn printable(s: Seq<char>) -> bool {
    forall|k: int| 0 <= k < s.len() ==> #[trigger] s[k] >= ' '
}

/// Relies on `serde_json::to_string` on a `str`: the string between quotes,
/// each character escaped as its escape table and `write_char_escape` do.
/// Writing to memory cannot fail.
#[verifier::external_body]
fn json_string(s: &str) -> (r: String)
    ensures
        r@ == json_quoted(s@),
{
    match serde_json::to_string(s) {
        Ok(t) => t,
        Err(_) => String::new(),
    }
}

/// A string of plain characters is written as it is, between quotes.
pub proof fn lemma_plain_quoted(s: Seq<char>)
    requires
        json_plain(s),
    ensures
        json_escaped(s) == s,
        json_quoted(s) == seq!['"'] + s + seq!['"'],
    decreases s.len(),
{
    reveal(json_quoted);
    if s.len() > 0 {
        assert(s.last() == s[s.len() - 1]);
        lemma_plain_quoted(s.drop_last());
        assert(s.drop_last().push(s.last()) =~= s);
        assert(json_escape(s.last()) =~= seq![s.last()]);
    }
}

pub proof fn lemma_concat_printable(a: Seq<char>, b: Seq<char>)
    requires
        printable(a),
        printable(b),
    ensures
        printable(a + b),
{
    assert forall|k: int| 0 <= k < (a + b).len() implies #[trigger] (a + b)[k] >= ' ' by {
        if k < a.len() {
            assert((a + b)[k] == a[k]);
        } else {
            assert((a + b)[k] == b[k - a.len()]);
        }
    }
}

proof fn lemma_hex_digit_printable(d: int)
    requires
        0 <= d < 16,
    ensures
        hex_digit(d) >= ' ',
{
}

/// A quoted string holds no control character, whatever the string holds.
pub proof fn lemma_quoted_printable(s: Seq<char>)
    ensures
        printable(json_escaped(s)),
        printable(json_quoted(s)),
    decreases s.len(),
{
    reveal(json_quoted);
    if s.len() > 0 {
        lemma_quoted_printable(s.drop_last());
        let c = s.last();
        if ' ' > c {
            lemma_hex_digit_printable((c as u32) as int / 16 % 16);
            lemma_hex_digit_printable((c as u32) as int % 16);
        }
        assert(printable(json_escape(c)));
        lemma_concat_printable(json_escaped(s.drop_last()), json_escape(c));
    }
    lemma_concat_printable(seq!['"'], json_escaped(s));
    lemma_concat_printable(seq!['"'] + json_escaped(s), seq!['"']);
}

/// `"key":` followed by the value's text.
pub open spec fn json_member(key: Seq<char>, value: Seq<char>) -> Seq<char> {
    json_quoted(key) + seq![':'] + value
}

/// The members joined by commas.
pub open spec fn join_members(members: Seq<Seq<char>>) -> Seq<char>
    decreases members.len(),
{
    if members.len() == 0 {
        Seq::empty()
    } else if members.len() == 1 {
        members[0]
    } else {
        join_members(members.drop_last()) + seq![','] + members.last()
    }
}

pub open spec fn json_object(members: Seq<Seq<char>>) -> Seq<char> {
    seq!['{'] + join_members(members) + seq!['}']
}

pub open spec fn string_member(key: Seq<char>, value: Seq<char>) -> Seq<char> {
    json_member(key, json_quoted(value))
}

/// A string member that is there only when the value is.
pub open spec fn optional_member(key: Seq<char>, value: Option<&str>) -> Seq<Seq<char>> {
    match value {
        Some(v) => seq![string_member(key, v@)],
        None => Seq::empty(),
    }
}

/// The members of an argument object, in wire order.
pub open spec fn argument_members(a: Argument) -> Seq<Seq<char>> {
    match a {
        Argument::Handshake {  } => Seq::empty(),
        Argument::QueryCommands {  } => Seq::empty(),
        Argument::QomList { path } => seq![string_member("path"@, path@)],
        Argument::QomGet { path, property } => seq![
            string_member("path"@, path@),
            string_member("property"@, property@),
        ],
        Argument::DeviceAdd { id, driver, bus, addr, vendorid, productid } => seq![
            string_member("id"@, id@),
            string_member("driver"@, driver@),
            string_member("bus"@, bus@),
        ] + optional_member("addr"@, addr) + optional_member("vendorid"@, vendorid)
            + optional_member("productid"@, productid),
        Argument::DeviceRemove { id } => seq![string_member("id"@, id@)],
    }
}

/// `{"execute":"<name>","arguments":{<members>}}`.
pub open spec fn command_text(name: Seq<char>, members: Seq<Seq<char>>) -> Seq<char> {
    json_object(
        seq![
            string_member("execute"@, name),
            json_member("arguments"@, json_object(members)),
        ],
    )
}

/// The wire text of a message: one line of JSON.
pub open spec fn message_text(m: QMPMessage) -> Seq<char> {
    command_text(command_name(m.execute), argument_members(m.arguments))
}

/// `{` + the members joined by commas + `}`.
fn object_text(members: &Vec<String>) -> (r: String)
    ensures
        r@ == json_object(members@.map_values(|m: String| m@)),
{
    let ghost ms = members@.map_values(|m: String| m@);
    let mut out = String::from_str("{");
    proof {
        reveal_strlit("{");
    }
    let mut i: usize = 0;
    while i < members.len()
        invariant
            i <= members@.len(),
            ms == members@.map_values(|m: String| m@),
            out@ == seq!['{'] + join_members(ms.take(i as int)),
        decreases members.len() - i,
    {
        if i > 0 {
            out.append(",");
            proof {
                reveal_strlit(",");
            }
        }
        out.append(members[i].as_str());
        i = i + 1;
        proof {
            assert(ms.take(i as int).drop_last() =~= ms.take(i - 1));
            if i == 1 {
                assert(ms.take(0) =~= Seq::<Seq<char>>::empty());
            }
        }
        assert(out@ =~= seq!['{'] + join_members(ms.take(i as int)));
    }
    assert(ms.take(members.len() as int) =~= ms);
    out.append("}");
    proof {
        reveal_strlit("}");
    }
    assert(out@ =~= json_object(ms));
    out
}

/// `"key":` followed by `value`, which is already JSON text.
fn member_text(key: &str, value: String) -> (r: String)
    ensures
        r@ == json_member(key@, value@),
{
    let mut out = json_string(key);
    out.append(":");
    proof {
        reveal_strlit(":");
    }
    out.append(value.as_str());
    assert(out@ =~= json_member(key@, value@));
    out
}

fn push_string_member(members: &mut Vec<String>, key: &str, value: &str)
    ensures
        final(members)@.map_values(|m: String| m@) == old(members)@.map_values(|m: String| m@).push(
            string_member(key@, value@),
        ),
{
    let m = member_text(key, json_string(value));
    members.push(m);
    assert(final(members)@.map_values(|m: String| m@) =~= old(members)@.map_values(|m: String| m@).push(
        string_member(key@, value@),
    ));
}

fn push_optional_member(members: &mut Vec<String>, key: &str, value: Option<&str>)
    ensures
        final(members)@.map_values(|m: String| m@) == old(members)@.map_values(|m: String| m@)
            + optional_member(key@, value),
{
    match value {
        Some(v) => push_string_member(members, key, v),
        None => {},
    }
    assert(final(members)@.map_values(|m: String| m@) =~= old(members)@.map_values(|m: String| m@)
        + optional_member(key@, value));
}

impl<'a> Argument<'a> {
    /// The argument object's JSON text.
    pub fn to_json(&self) -> (r: String)
        ensures
            r@ == json_object(argument_members(*self)),
    {
        let mut members: Vec<String> = Vec::new();
        assert(members@.map_values(|m: String| m@) =~= Seq::<Seq<char>>::empty());
        match *self {
            Argument::Handshake {  } => {},
            Argument::QueryCommands {  } => {},
            Argument::QomList { path } => {
                push_string_member(&mut members, "path", path);
            },
            Argument::QomGet { path, property } => {
                push_string_member(&mut members, "path", path);
                push_string_member(&mut members, "property", property);
            },
            Argument::DeviceAdd { id, driver, bus, addr, vendorid, productid } => {
                push_string_member(&mut members, "id", id);
                push_string_member(&mut members, "driver", driver);
                push_string_member(&mut members, "bus", bus);
                push_optional_member(&mut members, "addr", addr);
                push_optional_member(&mut members, "vendorid", vendorid);
                push_optional_member(&mut members, "productid", productid);
            },
            Argument::DeviceRemove { id } => {
                push_string_member(&mut members, "id", id);
            },
        }
        assert(members@.map_values(|m: String| m@) =~= argument_members(*self));
        object_text(&members)
    }
}

impl<'a> QMPMessage<'a> {
    /// The message as one line of JSON text, ready to be written to the
    /// socket.
    pub fn to_json(&self) -> (r: String)
        ensures
            r@ == message_text(*self),
            printable(r@),
    {
        proof {
            law_message_single_line(*self);
        }
        let mut members: Vec<String> = Vec::new();
        assert(members@.map_values(|m: String| m@) =~= Seq::<Seq<char>>::empty());
        let name = self.execute.name();
        push_string_member(&mut members, "execute", name);
        let ghost before = members@;
        let args = member_text("arguments", self.arguments.to_json());
        members.push(args);
        assert(members@.map_values(|m: String| m@) =~= before.map_values(|m: String| m@).push(
            json_member("arguments"@, json_object(argument_members(self.arguments))),
        ));
        assert(members@.map_values(|m: String| m@) =~= seq![
            string_member("execute"@, command_name(self.execute)),
            json_member("arguments"@, json_object(argument_members(self.arguments))),
        ]);
        object_text(&members)
    }
}

proof fn lemma_join_printable(ms: Seq<Seq<char>>)
    requires
        forall|i: int| 0 <= i < ms.len() ==> printable(#[trigger] ms[i]),
    ensures
        printable(join_members(ms)),
    decreases ms.len(),
{
    if ms.len() > 1 {
        lemma_join_printable(ms.drop_last());
        assert(printable(ms.last()));
        assert(printable(seq![',']));
        lemma_concat_printable(join_members(ms.drop_last()), seq![',']);
        lemma_concat_printable(join_members(ms.drop_last()) + seq![','], ms.last());
    } else if ms.len() == 1 {
        assert(printable(ms[0]));
    }
}

proof fn lemma_object_printable(ms: Seq<Seq<char>>)
    requires
        forall|i: int| 0 <= i < ms.len() ==> printable(#[trigger] ms[i]),
    ensures
        printable(json_object(ms)),
{
    lemma_join_printable(ms);
    assert(printable(seq!['{']));
    assert(printable(seq!['}']));
    lemma_concat_printable(seq!['{'], join_members(ms));
    lemma_concat_printable(seq!['{'] + join_members(ms), seq!['}']);
}

proof fn lemma_member_printable(key: Seq<char>, value: Seq<char>)
    requires
        printable(value),
    ensures
        printable(json_member(key, value)),
{
    lemma_quoted_printable(key);
    assert(printable(seq![':']));
    lemma_concat_printable(json_quoted(key), seq![':']);
    lemma_concat_printable(json_quoted(key) + seq![':'], value);
}

proof fn lemma_string_member_printable(key: Seq<char>, value: Seq<char>)
    ensures
        printable(string_member(key, value)),
{
    lemma_quoted_printable(value);
    lemma_member_printable(key, json_quoted(value));
}

/// Whatever the command's strings hold, its text is one line: it holds no
/// line break or other control character.
pub proof fn lemma_command_text_printable(name: Seq<char>, members: Seq<Seq<char>>)
    requires
        forall|i: int| 0 <= i < members.len() ==> printable(#[trigger] members[i]),
    ensures
        printable(command_text(name, members)),
{
    lemma_object_printable(members);
    lemma_member_printable("arguments"@, json_object(members));
    lemma_string_member_printable("execute"@, name);
    let top = seq![
        string_member("execute"@, name),
        json_member("arguments"@, json_object(members)),
    ];
    assert(forall|i: int| 0 <= i < top.len() ==> printable(#[trigger] top[i]));
    lemma_object_printable(top);
}

proof fn lemma_argument_members_printable(a: Argument)
    ensures
        forall|i: int| 0 <= i < argument_members(a).len() ==> printable(
            #[trigger] argument_members(a)[i],
        ),
{
    match a {
        Argument::QomList { path } => {
            lemma_string_member_printable("path"@, path@);
        },
        Argument::QomGet { path, property } => {
            lemma_string_member_printable("path"@, path@);
            lemma_string_member_printable("property"@, property@);
        },
        Argument::DeviceAdd { id, driver, bus, addr, vendorid, productid } => {
            lemma_string_member_printable("id"@, id@);
            lemma_string_member_printable("driver"@, driver@);
            lemma_string_member_printable("bus"@, bus@);
            if let Some(v) = addr {
                lemma_string_member_printable("addr"@, v@);
            }
            if let Some(v) = vendorid {
                lemma_string_member_printable("vendorid"@, v@);
            }
            if let Some(v) = productid {
                lemma_string_member_printable("productid"@, v@);
            }
            let ms = argument_members(a);
            assert forall|i: int| 0 <= i < ms.len() implies printable(#[trigger] ms[i]) by {
                let head = seq![
                    string_member("id"@, id@),
                    string_member("driver"@, driver@),
                    string_member("bus"@, bus@),
                ];
                let o1 = optional_member("addr"@, addr);
                let o2 = optional_member("vendorid"@, vendorid);
                let o3 = optional_member("productid"@, productid);
                assert(ms == head + o1 + o2 + o3);
                if i < 3 {
                    assert(ms[i] == head[i]);
                } else if i < 3 + o1.len() {
                    assert(ms[i] == o1[i - 3]);
                } else if i < 3 + o1.len() + o2.len() {
                    assert(ms[i] == o2[i - 3 - o1.len()]);
                } else {
                    assert(ms[i] == o3[i - 3 - o1.len() - o2.len()]);
                }
            }
        },
        Argument::DeviceRemove { id } => {
            lemma_string_member_printable("id"@, id@);
        },
        _ => {},
    }
}

/// Every message is one line of text: whatever its strings hold, the
/// serialized form holds no line break or other control character.
pub proof fn law_message_single_line(m: QMPMessage)
    ensures
        printable(message_text(m)),
{
    lemma_argument_members_printable(m.arguments);
    lemma_command_text_printable(command_name(m.execute), argument_members(m.arguments));
}

} // verus!
