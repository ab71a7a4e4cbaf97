//! The commands that the player process is sent.
use crate::double::Double;
use crate::double::INFINITY_BITS;
use crate::double::SIGN_BIT;
use crate::json::lemma_array_items;
use crate::json::lemma_object_fields;
use crate::json::Json;
use crate::json::Tree;
use vstd::prelude::*;

verus! {

/// An argument of a command.
#[derive(Debug)]
pub enum IpcArg {
    Text(String),
    Integer(i64),
    Real(Double),
}

pub enum IpcArgView {
    Text(Seq<char>),
    Integer(i64),
    Real(Double),
}

impl View for IpcArg {
    type V = IpcArgView;

    open spec fn view(&self) -> IpcArgView {
        match *self {
            IpcArg::Text(s) => IpcArgView::Text(s@),
            IpcArg::Integer(i) => IpcArgView::Integer(i),
            IpcArg::Real(d) => IpcArgView::Real(d),
        }
    }
}

/// A command: its name and arguments, and the number by which its reply is
/// known.
#[derive(Debug)]
pub struct IpcCommand {
    pub args: Vec<IpcArg>,
    pub request_id: Option<i64>,
}

#[verifier::ext_equal]
pub struct IpcCommandView {
    pub args: Seq<IpcArgView>,
    pub request_id: Option<i64>,
}

impl View for IpcCommand {
    type V = IpcCommandView;

    open spec fn view(&self) -> IpcCommandView {
        IpcCommandView {
            args: self.args@.map_values(|a: IpcArg| a@),
            request_id: self.request_id,
        }
    }
}

/// The commands in specifications.
pub open spec fn view_commands(commands: Seq<IpcCommand>) -> Seq<IpcCommandView> {
    commands.map_values(|c: IpcCommand| c@)
}

pub open spec fn text_arg(s: Seq<char>) -> IpcArgView {
    IpcArgView::Text(s)
}

/// A command whose reply is not asked for.
pub open spec fn plain_command(args: Seq<IpcArgView>) -> IpcCommandView {
    IpcCommandView { args, request_id: None }
}

/// The commands `quit` and `cycle pause`.
pub open spec fn quit_spec() -> IpcCommandView {
    plain_command(seq![text_arg("quit"@)])
}

pub open spec fn cycle_pause_spec() -> IpcCommandView {
    plain_command(seq![text_arg("cycle"@), text_arg("pause"@)])
}

/// Seeks to a position, to the frame.
pub open spec fn seek_exact_spec(position_secs: Double) -> IpcCommandView {
    plain_command(
        seq![
            text_arg("seek"@),
            IpcArgView::Real(position_secs),
            text_arg("absolute"@),
            text_arg("exact"@),
        ],
    )
}

/// Seeks forward, or back where `seconds` is negative.
pub open spec fn seek_relative_spec(seconds: Double) -> IpcCommandView {
    plain_command(seq![text_arg("seek"@), IpcArgView::Real(seconds), text_arg("relative"@)])
}

/// Sets a property.
pub open spec fn set_property_spec(name: Seq<char>, value: IpcArgView) -> IpcCommandView {
    plain_command(seq![text_arg("set_property"@), text_arg(name), value])
}

/// Plays a file in place of the one that is playing.
pub open spec fn load_file_spec(path: Seq<char>) -> IpcCommandView {
    plain_command(seq![text_arg("loadfile"@), text_arg(path), text_arg("replace"@)])
}

/// Asks to be told of every change of a property.
pub open spec fn observe_spec(number: i64, property: Seq<char>) -> IpcCommandView {
    plain_command(
        seq![text_arg("observe_property"@), IpcArgView::Integer(number), text_arg(property)],
    )
}

/// Asks for the value of a property.
pub open spec fn get_property_spec(property: Seq<char>, request_id: i64) -> IpcCommandView {
    IpcCommandView {
        args: seq![text_arg("get_property"@), text_arg(property)],
        request_id: Some(request_id),
    }
}

/// The number of the request for the track list.
pub const TRACK_LIST_REQUEST: i64 = 100;

/// The number of the request for the volume.
pub const VOLUME_REQUEST: i64 = 101;

/// The track that is chosen: its number, or `no` for none.
pub open spec fn track_choice(track_id: Option<i64>) -> IpcArgView {
    match track_id {
        Some(id) => IpcArgView::Integer(id),
        None => IpcArgView::Text("no"@),
    }
}

fn text(s: &str) -> (r: IpcArg)
    ensures
        r@ == text_arg(s@),
{
    IpcArg::Text(s.to_owned())
}

pub fn quit_command() -> (r: IpcCommand)
    ensures
        r@ == quit_spec(),
{
    let r = IpcCommand { args: vec![text("quit")], request_id: None };
    assert(r@ =~= quit_spec());
    r
}

pub fn cycle_pause_command() -> (r: IpcCommand)
    ensures
        r@ == cycle_pause_spec(),
{
    let r = IpcCommand { args: vec![text("cycle"), text("pause")], request_id: None };
    assert(r@ =~= cycle_pause_spec());
    r
}

pub fn seek_exact_command(position_secs: Double) -> (r: IpcCommand)
    ensures
        r@ == seek_exact_spec(position_secs),
{
    let r = IpcCommand {
        args: vec![text("seek"), IpcArg::Real(position_secs), text("absolute"), text("exact")],
        request_id: None,
    };
    assert(r@ =~= seek_exact_spec(position_secs));
    r
}

pub fn seek_relative_command(seconds: Double) -> (r: IpcCommand)
    ensures
        r@ == seek_relative_spec(seconds),
{
    let r = IpcCommand {
        args: vec![text("seek"), IpcArg::Real(seconds), text("relative")],
        request_id: None,
    };
    assert(r@ =~= seek_relative_spec(seconds));
    r
}

pub fn set_property_command(name: &str, value: IpcArg) -> (r: IpcCommand)
    ensures
        r@ == set_property_spec(name@, value@),
{
    let r = IpcCommand { args: vec![text("set_property"), text(name), value], request_id: None };
    assert(r@ =~= set_property_spec(name@, value@));
    r
}

pub fn load_file_command(path: &str) -> (r: IpcCommand)
    ensures
        r@ == load_file_spec(path@),
{
    let r = IpcCommand { args: vec![text("loadfile"), text(path), text("replace")], request_id: None };
    assert(r@ =~= load_file_spec(path@));
    r
}

fn observe_command(number: i64, property: &str) -> (r: IpcCommand)
    ensures
        r@ == observe_spec(number, property@),
{
    let r = IpcCommand {
        args: vec![text("observe_property"), IpcArg::Integer(number), text(property)],
        request_id: None,
    };
    assert(r@ =~= observe_spec(number, property@));
    r
}

fn get_property_command(property: &str, request_id: i64) -> (r: IpcCommand)
    ensures
        r@ == get_property_spec(property@, request_id),
{
    let r = IpcCommand {
        args: vec![text("get_property"), text(property)],
        request_id: Some(request_id),
    };
    assert(r@ =~= get_property_spec(property@, request_id));
    r
}

/// The argument that chooses a track.
pub fn track_argument(track_id: Option<i64>) -> (r: IpcArg)
    ensures
        r@ == track_choice(track_id),
{
    match track_id {
        Some(id) => IpcArg::Integer(id),
        None => text("no"),
    }
}

/// What a connection is sent before anything is read from it.
pub open spec fn opening_commands_spec() -> Seq<IpcCommandView> {
    seq![
        observe_spec(1, "time-pos"@),
        observe_spec(2, "duration"@),
        observe_spec(3, "pause"@),
        observe_spec(4, "volume"@),
        observe_spec(5, "track-list"@),
        observe_spec(6, "sid"@),
        observe_spec(7, "aid"@),
        get_property_spec("track-list"@, TRACK_LIST_REQUEST),
        get_property_spec("volume"@, VOLUME_REQUEST),
    ]
}

/// What a connection is sent before anything is read from it: the properties to
/// be told of, and requests for the track list and the volume.
pub fn opening_commands() -> (r: Vec<IpcCommand>)
    ensures
        view_commands(r@) == opening_commands_spec(),
{
    let r = vec![
        observe_command(1, "time-pos"),
        observe_command(2, "duration"),
        observe_command(3, "pause"),
        observe_command(4, "volume"),
        observe_command(5, "track-list"),
        observe_command(6, "sid"),
        observe_command(7, "aid"),
        get_property_command("track-list", TRACK_LIST_REQUEST),
        get_property_command("volume", VOLUME_REQUEST),
    ];
    assert(view_commands(r@) =~= opening_commands_spec());
    r
}

/// A double is a number that is not infinite.
pub open spec fn is_finite(d: Double) -> bool {
    d.magnitude() < INFINITY_BITS
}

/// An argument in JSON, which has no infinite numbers and nothing that is no
/// number: null stands for them.
pub open spec fn arg_tree(arg: IpcArgView) -> Tree {
    match arg {
        IpcArgView::Text(s) => Tree::Text(s),
        IpcArgView::Integer(n) => Tree::Number(Some(n), None),
        IpcArgView::Real(d) => if is_finite(d) {
            Tree::Number(None, Some(d))
        } else {
            Tree::Null
        },
    }
}

/// A command in JSON: an object with the command, and with the number of the
/// request where there is one.
pub open spec fn command_tree(command: IpcCommandView) -> Tree {
    let args = Tree::Array(command.args.map_values(|a: IpcArgView| arg_tree(a)));
    match command.request_id {
        Some(id) => Tree::Object(
            seq![("command"@, args), ("request_id"@, Tree::Number(Some(id), None))],
        ),
        None => Tree::Object(seq![("command"@, args)]),
    }
}

fn arg_json(arg: &IpcArg) -> (r: Json)
    ensures
        r@ == arg_tree(arg@),
{
    match arg {
        IpcArg::Text(s) => Json::Text(s.clone()),
        IpcArg::Integer(n) => Json::Number(Some(*n), None),
        IpcArg::Real(d) => {
            let size: u64 = if d.bits >= SIGN_BIT {
                d.bits - SIGN_BIT
            } else {
                d.bits
            };
            if size < INFINITY_BITS {
                Json::Number(None, Some(*d))
            } else {
                Json::Null
            }
        },
    }
}

/// A command in JSON.
pub fn command_json(command: &IpcCommand) -> (r: Json)
    ensures
        r@ == command_tree(command@),
{
    let mut args: Vec<Json> = Vec::new();
    let mut i: usize = 0;
    while i < command.args.len()
        invariant
            i <= command.args@.len(),
            args@.len() == i,
            forall|j: int| 0 <= j < i ==> (#[trigger] args@[j])@ == arg_tree(command.args@[j]@),
        decreases command.args.len() - i,
    {
        args.push(arg_json(&command.args[i]));
        i += 1;
    }
    proof {
        lemma_array_items(args);
    }
    let list = Json::Array(args);
    assert(list@->Array_0 =~= command@.args.map_values(|a: IpcArgView| arg_tree(a)));
    let mut fields: Vec<(String, Json)> = vec![("command".to_owned(), list)];
    match command.request_id {
        Some(id) => {
            fields.push(("request_id".to_owned(), Json::Number(Some(id), None)));
        },
        None => {},
    }
    proof {
        lemma_object_fields(fields);
    }
    let r = Json::Object(fields);
    assert(r@->Object_0 =~= command_tree(command@)->Object_0);
    r
}

/// A command is sent as one line.
pub fn ipc_line(payload: &str) -> (r: String)
    ensures
        r@ == payload@.push('\n'),
{
    let mut out = payload.to_owned();
    out.push('\n');
    out
}

/// What the commands say to the player process, word by word.
pub proof fn law_commands_say_what_is_asked(
    secs: Double,
    path: Seq<char>,
    name: Seq<char>,
    value: IpcArgView,
    track: i64,
)
    ensures
        quit_spec().args == seq![IpcArgView::Text("quit"@)],
        cycle_pause_spec().args == seq![IpcArgView::Text("cycle"@), IpcArgView::Text("pause"@)],
        seek_exact_spec(secs).args == seq![
            IpcArgView::Text("seek"@),
            IpcArgView::Real(secs),
            IpcArgView::Text("absolute"@),
            IpcArgView::Text("exact"@),
        ],
        seek_relative_spec(secs).args == seq![
            IpcArgView::Text("seek"@),
            IpcArgView::Real(secs),
            IpcArgView::Text("relative"@),
        ],
        set_property_spec(name, value).args == seq![
            IpcArgView::Text("set_property"@),
            IpcArgView::Text(name),
            value,
        ],
        load_file_spec(path).args == seq![
            IpcArgView::Text("loadfile"@),
            IpcArgView::Text(path),
            IpcArgView::Text("replace"@),
        ],
        track_choice(Some(track)) == IpcArgView::Integer(track),
        track_choice(None) == IpcArgView::Text("no"@),
        quit_spec().request_id is None && cycle_pause_spec().request_id is None,
        seek_exact_spec(secs).request_id is None && seek_relative_spec(secs).request_id is None,
        set_property_spec(name, value).request_id is None && load_file_spec(path).request_id is None,
{
}

/// A command on the wire: under `command` stands the list of its arguments, one for one,
/// and under `request_id` the number of the request, exactly if there is one.
pub proof fn law_command_on_the_wire(command: IpcCommandView, i: int)
    ensures
        command_tree(command).at("command"@) is Array,
        command_tree(command).at("command"@).items().len() == command.args.len(),
        0 <= i < command.args.len() ==> match command.args[i] {
            IpcArgView::Text(s) => command_tree(command).at("command"@).items()[i].as_text()
                == Some(s),
            IpcArgView::Integer(n) => command_tree(command).at("command"@).items()[i].as_int()
                == Some(n),
            IpcArgView::Real(d) => command_tree(command).at("command"@).items()[i].as_double()
                == if d.is_nan() || d.bits == INFINITY_BITS || d.bits == SIGN_BIT + INFINITY_BITS {
                None
            } else {
                Some(d)
            },
        },
        command_tree(command).at("request_id"@).as_int() == command.request_id,
        command.request_id is None ==> command_tree(command).field("request_id"@) is None,
{
    reveal_strlit("command");
    reveal_strlit("request_id");
    assert("command"@.len() != "request_id"@.len());
    reveal_with_fuel(crate::json::lookup, 3);
    let tree = command_tree(command);
    let fields = tree->Object_0;
    assert(fields[0].0 == "command"@);
    assert(tree.at("command"@) == fields[0].1);
    if command.request_id is Some {
        assert(fields.drop_first()[0] == fields[1]);
        assert(tree.at("request_id"@) == fields[1].1);
    } else {
        assert(fields.drop_first().len() == 0);
    }
}

/// A connection is told of the position, the duration, the pause, the volume, the tracks
/// and the active tracks, each under a number of its own, and asked for the tracks and
/// the volume under the numbers by which the answers are known.
pub proof fn law_opening_commands(k: int)
    requires
        0 <= k < 7,
    ensures
        opening_commands_spec().len() == 9,
        opening_commands_spec()[k].args == seq![
            IpcArgView::Text("observe_property"@),
            IpcArgView::Integer((k + 1) as i64),
            IpcArgView::Text(
                seq![
                    "time-pos"@,
                    "duration"@,
                    "pause"@,
                    "volume"@,
                    "track-list"@,
                    "sid"@,
                    "aid"@,
                ][k],
            ),
        ],
        opening_commands_spec()[7].args == seq![
            IpcArgView::Text("get_property"@),
            IpcArgView::Text("track-list"@),
        ],
        opening_commands_spec()[7].request_id == Some(100i64),
        opening_commands_spec()[8].args == seq![
            IpcArgView::Text("get_property"@),
            IpcArgView::Text("volume"@),
        ],
        opening_commands_spec()[8].request_id == Some(101i64),
{
    if k == 0 {
    } else if k == 1 {
    } else if k == 2 {
    } else if k == 3 {
    } else if k == 4 {
    } else if k == 5 {
    } else {
    }
}

/// In specifications commands keep their order, their arguments and their numbers.
pub proof fn law_commands_in_specifications(commands: Seq<IpcCommand>, i: int, k: int)
    requires
        0 <= i < commands.len(),
        0 <= k < commands[i].args@.len(),
    ensures
        view_commands(commands).len() == commands.len(),
        view_commands(commands)[i].request_id == commands[i].request_id,
        view_commands(commands)[i].args.len() == commands[i].args@.len(),
        view_commands(commands)[i].args[k] == match commands[i].args@[k] {
            IpcArg::Text(text) => IpcArgView::Text(text@),
            IpcArg::Integer(n) => IpcArgView::Integer(n),
            IpcArg::Real(d) => IpcArgView::Real(d),
        },
{
}

}
