//! The virtual interface pair: its names, the commands that create and remove
//! it, and what is learnt of its peer end.
//!
//! The pair is driven through the `ip` command. This module never runs
//! anything: it says which command comes next and judges what came back. The
//! caller runs the command, and parses the JSON text that `ip -j` printed,
//! and hands the outcome in.

use vstd::prelude::*;
use vstd::string::StringExecFns;
use vstd::utf8::{decode_utf8, valid_utf8};
use crate::mac::{
    first_bad, parse_hex, parse_hex_byte, part_views, split_at_colons, split_colon, MAC_LEN,
};
use crate::text::{append_decimal, chars_of, decimal};

verus! {

/// Number of commands that set the pair up.
pub const SETUP_COMMANDS: usize = 5;

/// The class of a failure.
#[derive(Clone, Copy, Debug, PartialEq, Eq, Structural)]
pub enum ErrorKind {
    /// Something that should exist was not found.
    NotFound,
    /// What was read is not in the form it should have.
    InvalidData,
    /// Anything else.
    Other,
}

/// A failure of setting the pair up or of learning about its peer: its class
/// and a message for the operator.
#[derive(Clone, Debug, PartialEq, Eq)]
pub struct VethError {
    pub kind: ErrorKind,
    pub message: String,
}

/// A failure as specifications see it.
pub struct Failure {
    pub kind: ErrorKind,
    pub message: Seq<char>,
}

impl View for VethError {
    type V = Failure;

    open spec fn view(&self) -> Failure {
        Failure { kind: self.kind, message: self.message@ }
    }
}

/// One interface as `ip -j link show` describes it.
#[derive(Clone, Debug, PartialEq, Eq)]
pub struct VethJsonIface {
    pub ifindex: i32,
    pub ifname: String,
    pub flags: Vec<String>,
    pub mtu: i32,
    pub qdisc: String,
    pub operstate: String,
    pub linkmode: String,
    pub group: String,
    pub link_type: String,
    pub link: Option<String>,
    pub master: Option<String>,
    pub txqlen: Option<i32>,
    pub address: Option<String>,
    pub broadcast: Option<String>,
    pub altnames: Option<Vec<String>>,
}

/// What the caller reports back when it asks about the peer.
#[derive(Clone, Debug, PartialEq, Eq)]
pub enum Reply {
    /// Nothing yet: this is the first call.
    Nothing,
    /// The command that was asked for ran to its end.
    Ran { exit_code: i32, stdout: Vec<u8> },
    /// The text that was handed out is a JSON list of these interfaces.
    Parsed(Vec<VethJsonIface>),
    /// The text that was handed out is no JSON list of interfaces; the
    /// parser said why.
    Rejected(String),
}

/// The answer to a request that may need the caller's help.
#[derive(Clone, Debug, PartialEq, Eq)]
pub enum Step<T> {
    /// The request is fulfilled.
    Done(T),
    /// Run this command, wait for it, and call again with its exit code (and
    /// what it printed, where that is asked for).
    Run(Vec<String>),
    /// Parse this text as a JSON list of interfaces and call again with the
    /// result.
    Parse(String),
    /// The request failed.
    Failed(VethError),
}

/// A [`Step`] as specifications see it.
pub enum StepView<V> {
    Done(V),
    Run(Seq<Seq<char>>),
    Parse(Seq<char>),
    Failed(Failure),
}

/// The texts of `words`, one by one.
pub open spec fn texts(words: Seq<String>) -> Seq<Seq<char>> {
    Seq::new(words.len(), |i: int| words[i]@)
}

/// The texts of `commands`, one by one.
pub open spec fn command_texts(commands: Seq<Vec<String>>) -> Seq<Seq<Seq<char>>> {
    Seq::new(commands.len(), |i: int| texts(commands[i]@))
}

impl<T: View> View for Step<T> {
    type V = StepView<T::V>;

    open spec fn view(&self) -> StepView<T::V> {
        match self {
            Step::Done(value) => StepView::Done(value@),
            Step::Run(argv) => StepView::Run(texts(argv@)),
            Step::Parse(text) => StepView::Parse(text@),
            Step::Failed(error) => StepView::Failed(error@),
        }
    }
}

/// The name of the peer end of the pair called `name`.
pub open spec fn peer_name(name: Seq<char>) -> Seq<char> {
    name + "-peer"@
}

/// Command `i` of the setup of the pair `name` with address `cidr`: probe
/// that `name` is free, add the pair, give `name` its address, bring `name`
/// up, bring the peer up.
pub open spec fn setup_command(name: Seq<char>, cidr: Seq<char>, i: int) -> Seq<Seq<char>> {
    if i == 0 {
        seq!["ip"@, "link"@, "show"@, name]
    } else if i == 1 {
        seq![
            "ip"@,
            "link"@,
            "add"@,
            name,
            "type"@,
            "veth"@,
            "peer"@,
            "name"@,
            peer_name(name),
        ]
    } else if i == 2 {
        seq!["ip"@, "addr"@, "add"@, cidr, "dev"@, name]
    } else if i == 3 {
        seq!["ip"@, "link"@, "set"@, name, "up"@]
    } else {
        seq!["ip"@, "link"@, "set"@, peer_name(name), "up"@]
    }
}

/// The exit code that command `i` of the setup must give: the probe must
/// fail, everything after it must succeed.
pub open spec fn setup_expected(i: int) -> i32 {
    if i == 0 {
        1
    } else {
        0
    }
}

/// The commands that remove the pair `name`: both ends down, then delete.
pub open spec fn teardown_commands(name: Seq<char>) -> Seq<Seq<Seq<char>>> {
    seq![
        seq!["ip"@, "link"@, "set"@, name, "down"@],
        seq!["ip"@, "link"@, "set"@, peer_name(name), "down"@],
        seq!["ip"@, "link"@, "del"@, name],
    ]
}

/// The command that describes the peer of the pair `name` as JSON.
pub open spec fn peer_query(name: Seq<char>) -> Seq<Seq<char>> {
    seq!["ip"@, "-j"@, "link"@, "show"@, peer_name(name)]
}

/// A setup command gave `got` where `expected` was due.
pub open spec fn command_failed(expected: i32, got: i32) -> Failure {
    Failure {
        kind: ErrorKind::Other,
        message: "Command failed (expected "@ + decimal(expected as int) + ", got "@ + decimal(
            got as int,
        ) + ")"@,
    }
}

/// The command that describes the peer did not exit with 0.
pub open spec fn query_failed() -> Failure {
    Failure { kind: ErrorKind::Other, message: "ip -j link show command failed"@ }
}

/// What the command printed is not UTF-8.
pub open spec fn invalid_utf8() -> Failure {
    Failure { kind: ErrorKind::InvalidData, message: "Invalid UTF-8 in command output"@ }
}

/// What the command printed is not a JSON list of interfaces; `message` is
/// the parser's.
pub open spec fn invalid_json(message: Seq<char>) -> Failure {
    Failure { kind: ErrorKind::InvalidData, message }
}

/// The list of interfaces is empty.
pub open spec fn no_devices() -> Failure {
    Failure { kind: ErrorKind::NotFound, message: "No devices found"@ }
}

/// The list holds more than one interface.
pub open spec fn multiple_devices() -> Failure {
    Failure {
        kind: ErrorKind::Other,
        message: "Multiple devices found (expected exactly one)"@,
    }
}

/// The interface has no hardware address.
pub open spec fn address_missing() -> Failure {
    Failure { kind: ErrorKind::Other, message: "Address field missing in JSON"@ }
}

/// The address is not six pieces separated by colons.
pub open spec fn invalid_mac_format() -> Failure {
    Failure {
        kind: ErrorKind::InvalidData,
        message: "Invalid MAC format (expected 6 hex pairs)"@,
    }
}

/// A piece of the address is no hexadecimal byte.
pub open spec fn invalid_hex_digit() -> Failure {
    Failure { kind: ErrorKind::InvalidData, message: "Invalid hex digit"@ }
}

/// What the setup asks for next when the commands run so far exited with
/// `codes`, looking at the commands from `i` on: the first command whose code
/// is not the expected one fails the setup; else the first command without a
/// code is run; with all five as expected the setup is done.
pub open spec fn setup_step(name: Seq<char>, cidr: Seq<char>, codes: Seq<i32>, i: int) -> StepView<
    (),
>
    decreases SETUP_COMMANDS - i,
{
    if i < 0 || i >= SETUP_COMMANDS {
        StepView::Done(())
    } else if i >= codes.len() {
        StepView::Run(setup_command(name, cidr, i))
    } else if codes[i] != setup_expected(i) {
        StepView::Failed(command_failed(setup_expected(i), codes[i]))
    } else {
        setup_step(name, cidr, codes, i + 1)
    }
}

/// The hardware address that `text` writes: six pieces separated by colons,
/// each a hexadecimal byte.
pub open spec fn parse_mac(text: Seq<char>) -> Result<Seq<u8>, Failure> {
    let parts = split_colon(text);
    if parts.len() != MAC_LEN {
        Err(invalid_mac_format())
    } else if first_bad(parts, 0) < MAC_LEN {
        Err(invalid_hex_digit())
    } else {
        Ok(Seq::new(MAC_LEN as nat, |j: int| parse_hex(parts[j]).unwrap()))
    }
}

/// The bytes that a parse of six pieces leaves in a buffer that held
/// `before`: the bytes of the pieces before the first bad one, and behind
/// them what was there.
pub open spec fn mac_written(parts: Seq<Seq<char>>, before: Seq<u8>) -> Seq<u8> {
    Seq::new(
        MAC_LEN as nat,
        |j: int|
            if j < first_bad(parts, 0) {
                parse_hex(parts[j]).unwrap()
            } else {
                before[j]
            },
    )
}

/// What an attempt to learn about the peer of `name` comes to on `reply`:
/// the command to run, the text to parse, a failure, or the peer's hardware
/// address and interface index.
pub open spec fn peer_update(name: Seq<char>, reply: Reply) -> StepView<(Seq<u8>, i32)> {
    match reply {
        Reply::Nothing => StepView::Run(peer_query(name)),
        Reply::Ran { exit_code, stdout } => {
            if exit_code != 0 {
                StepView::Failed(query_failed())
            } else if !valid_utf8(stdout@) {
                StepView::Failed(invalid_utf8())
            } else {
                StepView::Parse(decode_utf8(stdout@))
            }
        },
        Reply::Rejected(message) => StepView::Failed(invalid_json(message@)),
        Reply::Parsed(list) => {
            if list@.len() == 0 {
                StepView::Failed(no_devices())
            } else if list@.len() > 1 {
                StepView::Failed(multiple_devices())
            } else {
                match list@[0].address {
                    None => StepView::Failed(address_missing()),
                    Some(text) => match parse_mac(text@) {
                        Err(failure) => StepView::Failed(failure),
                        Ok(mac) => StepView::Done((mac, list@[0].ifindex)),
                    },
                }
            }
        },
    }
}

/// What is known of a pair.
pub struct VethView {
    /// The name of the near end.
    pub name: Seq<char>,
    /// The hardware address and the interface index of the peer end, once
    /// they were learnt.
    pub peer: Option<(Seq<u8>, i32)>,
}

/// What a lookup of the peer's data comes to: what is known already is
/// handed out without asking; else the attempt to learn it decides.
pub open spec fn peer_lookup(veth: VethView, reply: Reply) -> StepView<(Seq<u8>, i32)> {
    match veth.peer {
        Some(info) => StepView::Done(info),
        None => peer_update(veth.name, reply),
    }
}

/// The pair after a lookup: where the lookup is done, its result is known
/// from then on; else nothing changes.
pub open spec fn after_lookup(veth: VethView, reply: Reply) -> VethView {
    match peer_lookup(veth, reply) {
        StepView::Done(info) => VethView { name: veth.name, peer: Some(info) },
        _ => veth,
    }
}

/// The hardware address out of a lookup.
pub open spec fn mac_of(step: StepView<(Seq<u8>, i32)>) -> StepView<Seq<u8>> {
    match step {
        StepView::Done(info) => StepView::Done(info.0),
        StepView::Run(argv) => StepView::Run(argv),
        StepView::Parse(text) => StepView::Parse(text),
        StepView::Failed(failure) => StepView::Failed(failure),
    }
}

/// The interface index out of a lookup.
pub open spec fn ifindex_of(step: StepView<(Seq<u8>, i32)>) -> StepView<i32> {
    match step {
        StepView::Done(info) => StepView::Done(info.1),
        StepView::Run(argv) => StepView::Run(argv),
        StepView::Parse(text) => StepView::Parse(text),
        StepView::Failed(failure) => StepView::Failed(failure),
    }
}

/// `std::str::from_utf8`: the text that `bytes` encode. The standard library
/// accepts exactly the byte strings that are well-formed UTF-8 and gives
/// their characters; for every other byte string it gives an error, which
/// becomes `None` here.
#[verifier::external_body]
fn utf8_text(bytes: &[u8]) -> (text: Option<&str>)
    ensures
        text is Some <==> valid_utf8(bytes@),
        text matches Some(t) ==> t@ == decode_utf8(bytes@),
{
    std::str::from_utf8(bytes).ok()
}

/// A failure of class `kind` that says `message`.
fn failure(kind: ErrorKind, message: &str) -> (error: VethError)
    ensures
        error@ == (Failure { kind, message: message@ }),
{
    VethError { kind, message: String::from_str(message) }
}

/// Appends the word `text` to `argv`.
fn push_word(argv: &mut Vec<String>, text: &str)
    ensures
        texts(final(argv)@) == texts(old(argv)@).push(text@),
{
    argv.push(String::from_str(text));
    assert(texts(argv@) =~= texts(old(argv)@).push(text@));
}

/// The failure of a setup command that gave `got` where `expected` was due.
fn command_failure(expected: i32, got: i32) -> (error: VethError)
    ensures
        error@ == command_failed(expected, got),
{
    let mut message: String = String::from_str("Command failed (expected ");
    append_decimal(&mut message, expected);
    message.append(", got ");
    append_decimal(&mut message, got);
    message.append(")");
    VethError { kind: ErrorKind::Other, message }
}

/// A virtual interface pair: its two names and, once learnt, the hardware
/// address and interface index of its peer end.
#[derive(Debug)]
pub struct Veth {
    name: String,
    peer: String,
    peer_info: Option<([u8; 6], i32)>,
}

impl View for Veth {
    type V = VethView;

    closed spec fn view(&self) -> VethView {
        VethView {
            name: self.name@,
            peer: match self.peer_info {
                Some((mac, ifindex)) => Some((mac@, ifindex)),
                None => None,
            },
        }
    }
}

impl Veth {
    /// The peer's name is the pair's name followed by `-peer`.
    #[verifier::type_invariant]
    spec fn names_agree(self) -> bool {
        self.peer@ == peer_name(self.name@)
    }

    /// The pair called `name`, of which nothing is known yet.
    pub fn init(name: &str) -> (veth: Veth)
        ensures
            veth@ == (VethView { name: name@, peer: None }),
    {
        let peer: String = String::from_str(name).concat("-peer");
        Veth { name: String::from_str(name), peer, peer_info: None }
    }

    /// Command `i` of the setup.
    fn setup_argv(&self, veth_cidr: &str, i: usize) -> (argv: Vec<String>)
        requires
            i < SETUP_COMMANDS,
        ensures
            texts(argv@) == setup_command(self@.name, veth_cidr@, i as int),
    {
        proof {
            use_type_invariant(self);
        }
        let name: &str = self.name.as_str();
        let peer: &str = self.peer.as_str();
        let mut argv: Vec<String> = Vec::new();
        assert(texts(argv@) =~= Seq::<Seq<char>>::empty());
        push_word(&mut argv, "ip");
        if i == 0 {
            push_word(&mut argv, "link");
            push_word(&mut argv, "show");
            push_word(&mut argv, name);
        } else if i == 1 {
            push_word(&mut argv, "link");
            push_word(&mut argv, "add");
            push_word(&mut argv, name);
            push_word(&mut argv, "type");
            push_word(&mut argv, "veth");
            push_word(&mut argv, "peer");
            push_word(&mut argv, "name");
            push_word(&mut argv, peer);
        } else if i == 2 {
            push_word(&mut argv, "addr");
            push_word(&mut argv, "add");
            push_word(&mut argv, veth_cidr);
            push_word(&mut argv, "dev");
            push_word(&mut argv, name);
        } else if i == 3 {
            push_word(&mut argv, "link");
            push_word(&mut argv, "set");
            push_word(&mut argv, name);
            push_word(&mut argv, "up");
        } else {
            push_word(&mut argv, "link");
            push_word(&mut argv, "set");
            push_word(&mut argv, peer);
            push_word(&mut argv, "up");
        }
        assert(texts(argv@) =~= setup_command(self@.name, veth_cidr@, i as int));
        argv
    }

    /// Sets the pair up, with `veth_cidr` as the address of its near end.
    ///
    /// `exit_codes` holds the exit codes of the setup commands that have run
    /// so far, in order; it is empty on the first call. The answer is the
    /// next command to run, or that the setup is done, or the failure of the
    /// first command whose exit code is not the one expected. Commands run
    /// one after the other, and none runs after one that failed.
    pub fn create_veth(&self, veth_cidr: &str, exit_codes: &[i32]) -> (step: Step<()>)
        ensures
            step@ == setup_step(self@.name, veth_cidr@, exit_codes@, 0),
    {
        let mut i: usize = 0;
        while i < SETUP_COMMANDS
            invariant
                i <= SETUP_COMMANDS,
                setup_step(self@.name, veth_cidr@, exit_codes@, 0) == setup_step(
                    self@.name,
                    veth_cidr@,
                    exit_codes@,
                    i as int,
                ),
            decreases SETUP_COMMANDS - i,
        {
            if i >= exit_codes.len() {
                return Step::Run(self.setup_argv(veth_cidr, i));
            }
            let expected: i32 = if i == 0 {
                1
            } else {
                0
            };
            let got: i32 = exit_codes[i];
            if got != expected {
                return Step::Failed(command_failure(expected, got));
            }
            i += 1;
        }
        Step::Done(())
    }

    /// The command that describes the peer as JSON.
    fn peer_query_argv(&self) -> (argv: Vec<String>)
        ensures
            texts(argv@) == peer_query(self@.name),
    {
        proof {
            use_type_invariant(self);
        }
        let mut argv: Vec<String> = Vec::new();
        assert(texts(argv@) =~= Seq::<Seq<char>>::empty());
        push_word(&mut argv, "ip");
        push_word(&mut argv, "-j");
        push_word(&mut argv, "link");
        push_word(&mut argv, "show");
        push_word(&mut argv, self.peer.as_str());
        assert(texts(argv@) =~= peer_query(self@.name));
        argv
    }

    /// Reads a hardware address written as six hexadecimal bytes separated by
    /// colons into `mac`.
    ///
    /// A text that is not six pieces leaves `mac` as it was. With six pieces
    /// the bytes are stored from the left, up to the first piece that is no
    /// hexadecimal byte; what lies behind keeps its value.
    pub fn string_to_mac(mac_str: &str, mac: &mut [u8; 6]) -> (result: Result<(), VethError>)
        ensures
            match parse_mac(mac_str@) {
                Ok(bytes) => result is Ok && final(mac)@ == bytes,
                Err(failure) => result matches Err(error) && error@ == failure,
            },
            split_colon(mac_str@).len() != MAC_LEN ==> final(mac)@ == old(mac)@,
            split_colon(mac_str@).len() == MAC_LEN ==> final(mac)@ == mac_written(
                split_colon(mac_str@),
                old(mac)@,
            ),
    {
        let chars: Vec<char> = chars_of(mac_str);
        let parts: Vec<Vec<char>> = split_at_colons(&chars);
        let ghost pieces = split_colon(mac_str@);
        if parts.len() != MAC_LEN {
            return Err(failure(ErrorKind::InvalidData, "Invalid MAC format (expected 6 hex pairs)"));
        }
        let mut i: usize = 0;
        while i < MAC_LEN
            invariant
                i <= MAC_LEN,
                parts@.len() == MAC_LEN,
                pieces == part_views(parts@),
                pieces == split_colon(mac_str@),
                first_bad(pieces, 0) == first_bad(pieces, i as int),
                forall|j: int| 0 <= j < i ==> parse_hex(#[trigger] pieces[j]) is Some,
                forall|j: int| 0 <= j < i ==> mac@[j] == parse_hex(pieces[j]).unwrap(),
                forall|j: int| i <= j < MAC_LEN ==> mac@[j] == old(mac)@[j],
            decreases MAC_LEN - i,
        {
            assert(pieces[i as int] == parts@[i as int]@);
            match parse_hex_byte(&parts[i]) {
                None => {
                    assert(mac@ =~= mac_written(pieces, old(mac)@));
                    return Err(failure(ErrorKind::InvalidData, "Invalid hex digit"));
                },
                Some(byte) => {
                    mac[i] = byte;
                },
            }
            i += 1;
        }
        assert(mac@ =~= mac_written(pieces, old(mac)@));
        assert(parse_mac(mac_str@) matches Ok(bytes) && mac@ =~= bytes);
        Ok(())
    }

    /// Learns the peer's hardware address and interface index.
    ///
    /// On `Reply::Nothing` the answer is the command to run. On its outcome
    /// the answer is the text to parse, unless the command failed or printed
    /// something that is no text. On the parsed list the peer's data is
    /// stored, unless the list does not hold exactly one interface with a
    /// hardware address in due form.
    fn update_peer_info(&mut self, reply: Reply) -> (step: Step<([u8; 6], i32)>)
        ensures
            step@ == peer_update(old(self)@.name, reply),
            final(self)@ == match peer_update(old(self)@.name, reply) {
                StepView::Done(info) => VethView { name: old(self)@.name, peer: Some(info) },
                _ => old(self)@,
            },
    {
        proof {
            use_type_invariant(&*self);
        }
        match reply {
            Reply::Nothing => Step::Run(self.peer_query_argv()),
            Reply::Ran { exit_code, stdout } => {
                if exit_code != 0 {
                    return Step::Failed(
                        failure(ErrorKind::Other, "ip -j link show command failed"),
                    );
                }
                match utf8_text(stdout.as_slice()) {
                    None => Step::Failed(
                        failure(ErrorKind::InvalidData, "Invalid UTF-8 in command output"),
                    ),
                    Some(text) => Step::Parse(String::from_str(text)),
                }
            },
            Reply::Rejected(message) => Step::Failed(
                VethError { kind: ErrorKind::InvalidData, message },
            ),
            Reply::Parsed(list) => {
                if list.len() == 0 {
                    return Step::Failed(failure(ErrorKind::NotFound, "No devices found"));
                }
                if list.len() > 1 {
                    return Step::Failed(
                        failure(ErrorKind::Other, "Multiple devices found (expected exactly one)"),
                    );
                }
                let iface: &VethJsonIface = &list[0];
                match &iface.address {
                    None => Step::Failed(
                        failure(ErrorKind::Other, "Address field missing in JSON"),
                    ),
                    Some(text) => {
                        let mut mac: [u8; 6] = [0u8; 6];
                        match Self::string_to_mac(text.as_str(), &mut mac) {
                            Err(error) => Step::Failed(error),
                            Ok(()) => {
                                let info: ([u8; 6], i32) = (mac, iface.ifindex);
                                self.peer_info = Some(info);
                                Step::Done(info)
                            },
                        }
                    },
                }
            },
        }
    }

    /// The hardware address of the peer end.
    ///
    /// Once known it is handed out at once, whatever `reply` holds, and
    /// nothing is asked of the caller. Until then the call is one step of
    /// learning it: begin with `Reply::Nothing`, do what the answer asks, and
    /// call again with the outcome, until the answer is `Done` or `Failed`.
    /// What is learnt on the way, the interface index too, is kept.
    pub fn get_peer_mac(&mut self, reply: Reply) -> (step: Step<[u8; 6]>)
        ensures
            step@ == mac_of(peer_lookup(old(self)@, reply)),
            final(self)@ == after_lookup(old(self)@, reply),
    {
        if let Some((mac, _)) = self.peer_info {
            return Step::Done(mac);
        }
        match self.update_peer_info(reply) {
            Step::Done((mac, _)) => Step::Done(mac),
            Step::Run(argv) => Step::Run(argv),
            Step::Parse(text) => Step::Parse(text),
            Step::Failed(error) => Step::Failed(error),
        }
    }

    /// The interface index of the peer end. Works as
    /// [`get_peer_mac`](Veth::get_peer_mac) does.
    pub fn get_peer_ifindex(&mut self, reply: Reply) -> (step: Step<i32>)
        ensures
            step@ == ifindex_of(peer_lookup(old(self)@, reply)),
            final(self)@ == after_lookup(old(self)@, reply),
    {
        if let Some((_, ifindex)) = self.peer_info {
            return Step::Done(ifindex);
        }
        match self.update_peer_info(reply) {
            Step::Done((_, ifindex)) => Step::Done(ifindex),
            Step::Run(argv) => Step::Run(argv),
            Step::Parse(text) => Step::Parse(text),
            Step::Failed(error) => Step::Failed(error),
        }
    }

    /// The commands that remove the pair, in the order in which they are to
    /// run. Each is run whatever became of the one before it.
    pub fn destroy(&self) -> (commands: Vec<Vec<String>>)
        ensures
            command_texts(commands@) == teardown_commands(self@.name),
    {
        proof {
            use_type_invariant(self);
        }
        let name: &str = self.name.as_str();
        let peer: &str = self.peer.as_str();
        let mut down: Vec<String> = Vec::new();
        assert(texts(down@) =~= Seq::<Seq<char>>::empty());
        push_word(&mut down, "ip");
        push_word(&mut down, "link");
        push_word(&mut down, "set");
        push_word(&mut down, name);
        push_word(&mut down, "down");
        let mut peer_down: Vec<String> = Vec::new();
        assert(texts(peer_down@) =~= Seq::<Seq<char>>::empty());
        push_word(&mut peer_down, "ip");
        push_word(&mut peer_down, "link");
        push_word(&mut peer_down, "set");
        push_word(&mut peer_down, peer);
        push_word(&mut peer_down, "down");
        let mut delete: Vec<String> = Vec::new();
        assert(texts(delete@) =~= Seq::<Seq<char>>::empty());
        push_word(&mut delete, "ip");
        push_word(&mut delete, "link");
        push_word(&mut delete, "del");
        push_word(&mut delete, name);
        let mut commands: Vec<Vec<String>> = Vec::new();
        commands.push(down);
        commands.push(peer_down);
        commands.push(delete);
        assert(command_texts(commands@) =~~= teardown_commands(self@.name));
        commands
    }
}

} // verus!
