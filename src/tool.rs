//! The catalogue of tools offered to the language model, and the facts about
//! a tool that the tool protocols ask for.

use vstd::prelude::*;

verus! {

/// One argument of a tool.
#[derive(Debug, Clone, PartialEq, Eq)]
pub struct ToolArgument {
    pub name: String,
    pub description: String,
    pub required: bool,
}

/// A tool: its name, what it does, and its arguments.
#[derive(Debug, Clone, PartialEq, Eq)]
pub struct ToolFunction {
    pub name: String,
    pub description: String,
    pub args: Vec<ToolArgument>,
}

/// A list of tools.
#[derive(Debug, Clone, PartialEq, Eq)]
pub struct ToolList(pub Vec<ToolFunction>);

impl View for ToolArgument {
    type V = (Seq<char>, Seq<char>, bool);

    open spec fn view(&self) -> (Seq<char>, Seq<char>, bool) {
        (self.name@, self.description@, self.required)
    }
}

impl View for ToolFunction {
    type V = (Seq<char>, Seq<char>, Seq<(Seq<char>, Seq<char>, bool)>);

    open spec fn view(&self) -> (Seq<char>, Seq<char>, Seq<(Seq<char>, Seq<char>, bool)>) {
        (self.name@, self.description@, self.args@.map_values(|a: ToolArgument| a@))
    }
}

/// The names of the required arguments among `args`, in order.
pub open spec fn required_names(args: Seq<ToolArgument>) -> Seq<Seq<char>>
    decreases args.len(),
{
    if args.len() == 0 {
        Seq::empty()
    } else {
        let rest = required_names(args.drop_last());
        if args.last().required {
            rest.push(args.last().name@)
        } else {
            rest
        }
    }
}

fn duplicate(a: &ToolArgument) -> (r: ToolArgument)
    ensures
        r == *a,
{
    ToolArgument { name: a.name.clone(), description: a.description.clone(), required: a.required }
}

impl ToolFunction {
    /// The names of the required arguments, in the order of the arguments.
    pub fn required_arguments(&self) -> (r: Vec<String>)
        ensures
            r@.map_values(|s: String| s@) == required_names(self.args@),
    {
        let mut v: Vec<String> = Vec::new();
        let mut i: usize = 0;
        while i < self.args.len()
            invariant
                i <= self.args@.len(),
                v@.map_values(|s: String| s@) == required_names(self.args@.subrange(0, i as int)),
            decreases self.args@.len() - i,
        {
            let ghost before = v@;
            assert(self.args@.subrange(0, i as int + 1).drop_last() =~= self.args@.subrange(
                0,
                i as int,
            ));
            if self.args[i].required {
                v.push(self.args[i].name.clone());
                assert(v@.map_values(|s: String| s@) =~= before.map_values(|s: String| s@).push(
                    self.args@[i as int].name@,
                ));
            }
            i = i + 1;
        }
        assert(self.args@.subrange(0, self.args@.len() as int) =~= self.args@);
        v
    }

    /// The arguments to announce over the tool protocol: none at all when the
    /// tool takes none, otherwise all of them, in order.
    pub fn prompt_arguments(&self) -> (r: Option<Vec<ToolArgument>>)
        ensures
            self.args@.len() == 0 ==> r is None,
            self.args@.len() > 0 ==> (r matches Some(v) && v@ == self.args@),
    {
        if self.args.len() == 0 {
            return None;
        }
        let mut v: Vec<ToolArgument> = Vec::new();
        let mut i: usize = 0;
        while i < self.args.len()
            invariant
                i <= self.args@.len(),
                v@ == self.args@.subrange(0, i as int),
            decreases self.args@.len() - i,
        {
            v.push(duplicate(&self.args[i]));
            assert(v@ =~= self.args@.subrange(0, i as int + 1));
            i = i + 1;
        }
        assert(self.args@.subrange(0, self.args@.len() as int) =~= self.args@);
        Some(v)
    }
}

/// The single argument of every tool but the first: the name of whom it is about.
pub open spec fn name_argument(description: Seq<char>) -> Seq<(Seq<char>, Seq<char>, bool)> {
    seq![("name"@, description, true)]
}

/// The tools offered, in order.
pub open spec fn tool_catalog() -> Seq<(Seq<char>, Seq<char>, Seq<(Seq<char>, Seq<char>, bool)>)> {
    let contact = "The name of the contact or friend"@;
    seq![
        ("all_contacts"@, "list of all contacts or friends"@, Seq::empty()),
        ("contact_info"@, "information on a specific contact or friend"@, name_argument(contact)),
        (
            "contact_network"@,
            "information about the friends or contacts of another contact or friend"@,
            name_argument(contact),
        ),
        ("chat_messages"@, "recent chat messages with a friend or contact"@, name_argument(contact)),
        ("group_chat"@, "recent messages inside a group chat"@, name_argument(
            "The name of the group"@,
        )),
        (
            "contact_activity"@,
            "online activity information about a friend or contact"@,
            name_argument(contact),
        ),
        ("contact_status"@, "status information about a friend or contact"@, name_argument(
            contact,
        )),
    ]
}

fn name_tool(name: &str, description: &str, about: &str) -> (r: ToolFunction)
    ensures
        r@ == (name@, description@, name_argument(about@)),
{
    let mut args: Vec<ToolArgument> = Vec::new();
    args.push(ToolArgument { name: "name".to_owned(), description: about.to_owned(), required: true });
    let r = ToolFunction { name: name.to_owned(), description: description.to_owned(), args };
    assert(r@.2 =~= name_argument(about@));
    r
}

/// The catalogue of tools offered to the model.
pub fn tool_list() -> (r: ToolList)
    ensures
        r.0@.map_values(|f: ToolFunction| f@) == tool_catalog(),
{
    let contact = "The name of the contact or friend";
    let mut v: Vec<ToolFunction> = Vec::new();
    let first = ToolFunction {
        name: "all_contacts".to_owned(),
        description: "list of all contacts or friends".to_owned(),
        args: Vec::new(),
    };
    assert(first@.2 =~= Seq::empty());
    v.push(first);
    v.push(name_tool("contact_info", "information on a specific contact or friend", contact));
    v.push(
        name_tool(
            "contact_network",
            "information about the friends or contacts of another contact or friend",
            contact,
        ),
    );
    v.push(name_tool("chat_messages", "recent chat messages with a friend or contact", contact));
    v.push(name_tool("group_chat", "recent messages inside a group chat", "The name of the group"));
    v.push(
        name_tool(
            "contact_activity",
            "online activity information about a friend or contact",
            contact,
        ),
    );
    v.push(name_tool("contact_status", "status information about a friend or contact", contact));
    assert(v@.map_values(|f: ToolFunction| f@) =~= tool_catalog());
    ToolList(v)
}

/// The tools of the test service, in order.
pub open spec fn test_tool_catalog() -> Seq<(Seq<char>, Seq<char>, Seq<(Seq<char>, Seq<char>, bool)>)> {
    seq![
        ("test_tool"@, "unit test for tools"@, Seq::empty()),
        (
            "test_tool_with_parameters"@,
            "unit test for tools with parameters"@,
            name_argument("The name of the contact or friend"@),
        ),
    ]
}

/// The catalogue of the test service, which exercises tools with and without arguments.
pub fn test_tool_list() -> (r: ToolList)
    ensures
        r.0@.map_values(|f: ToolFunction| f@) == test_tool_catalog(),
{
    let mut v: Vec<ToolFunction> = Vec::new();
    let first = ToolFunction {
        name: "test_tool".to_owned(),
        description: "unit test for tools".to_owned(),
        args: Vec::new(),
    };
    assert(first@.2 =~= Seq::empty());
    v.push(first);
    v.push(
        name_tool(
            "test_tool_with_parameters",
            "unit test for tools with parameters",
            "The name of the contact or friend",
        ),
    );
    assert(v@.map_values(|f: ToolFunction| f@) =~= test_tool_catalog());
    ToolList(v)
}

} // verus!
