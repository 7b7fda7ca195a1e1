//! Builds the zfs commands and decodes their -Hp tab-separated output.
use vstd::prelude::*;
use crate::error::{classified, Error, ErrorView};
use crate::outside::{from_utf8_lossy, lowercase, utf8_lossy};
use crate::property::{Property, PropertyView};
use crate::text::chars::{
    chars_of, clone_opt, control, control_free, is_control, str_eq, str_opt, text_opt, text_pairs,
    texts,
};
use crate::text::decimal::{decimal, decimal_text, hex2, hex2_text, parse_u64, parse_u64_text};
use crate::text::search::{
    starts_with, starts_with_text, trim, trim_end_pattern, trim_end_text, trim_text,
};
use crate::text::split::{lines, lines_text, nonempty, split, split_text};

verus! {

/// Common set of query options for a ZFS pool or volume. ZFS has no server-side selection, so the
/// filtering is done client-side after the bulk queries.
#[derive(Debug, Clone)]
pub struct ZfsQueryArgs {
    /// Find entries with the given name.
    pub name: Option<String>,
    /// Find entries with the given uuid.
    pub uuid: Option<String>,
}

/// The mathematical view of query options.
#[verifier::ext_equal]
pub struct QueryView {
    pub name: Option<Seq<char>>,
    pub uuid: Option<Seq<char>>,
}

impl View for ZfsQueryArgs {
    type V = QueryView;

    open spec fn view(&self) -> QueryView {
        QueryView { name: text_opt(self.name), uuid: text_opt(self.uuid) }
    }
}

/// The value is the wanted one, or none is wanted in particular.
pub open spec fn admits(wanted: Option<Seq<char>>, value: Seq<char>) -> bool {
    match wanted {
        Some(text) => text == value,
        None => true,
    }
}

/// Whether the value is the wanted one, or none is wanted in particular.
pub fn admitted(wanted: &Option<String>, value: &str) -> (res: bool)
    ensures
        res == admits(text_opt(*wanted), value@),
{
    match wanted {
        Some(text) => str_eq(text.as_str(), value),
        None => true,
    }
}

impl QueryView {
    /// The options which any entry meets.
    pub open spec fn any() -> QueryView {
        QueryView { name: None, uuid: None }
    }

    /// Entries with the given name and uuid meet the options.
    pub open spec fn matches(self, name: Seq<char>, uuid: Seq<char>) -> bool {
        admits(self.name, name) && admits(self.uuid, uuid)
    }

    /// The display of the options.
    pub open spec fn display(self) -> Seq<char> {
        let name = match self.name {
            Some(name) => "name="@ + name + ","@,
            None => Seq::empty(),
        };
        let uuid = match self.uuid {
            Some(uuid) => "uuid="@ + uuid + ","@,
            None => Seq::empty(),
        };
        trim_end_pattern(name + uuid, ","@)
    }
}

impl Default for ZfsQueryArgs {
    fn default() -> (res: Self)
        ensures
            res@ == QueryView::any(),
    {
        ZfsQueryArgs::any()
    }
}

impl ZfsQueryArgs {
    /// Find any and all entries in the system.
    pub fn any() -> (res: Self)
        ensures
            res@ == QueryView::any(),
    {
        ZfsQueryArgs { name: None, uuid: None }
    }

    /// Find entries with the given name.
    pub fn named_opt(self, name: &Option<String>) -> (res: Self)
        ensures
            res@ == (match *name {
                Some(name) => QueryView { name: Some(name@), ..self@ },
                None => self@,
            }),
    {
        match name {
            Some(name) => ZfsQueryArgs { name: Some(name.clone()), ..self },
            None => self,
        }
    }

    /// Find the entry with the given uuid.
    pub fn uuid_opt(self, uuid: &Option<String>) -> (res: Self)
        ensures
            res@ == (match *uuid {
                Some(uuid) => QueryView { uuid: Some(uuid@), ..self@ },
                None => self@,
            }),
    {
        match uuid {
            Some(uuid) => ZfsQueryArgs { uuid: Some(uuid.clone()), ..self },
            None => self,
        }
    }

    /// Find entries with the given name.
    pub fn named(self, name: &str) -> (res: Self)
        ensures
            res@ == (QueryView { name: Some(name@), ..self@ }),
    {
        ZfsQueryArgs { name: Some(name.to_owned()), ..self }
    }

    /// Find the entry with the given uuid.
    pub fn uuid(self, uuid: &str) -> (res: Self)
        ensures
            res@ == (QueryView { uuid: Some(uuid@), ..self@ }),
    {
        ZfsQueryArgs { uuid: Some(uuid.to_owned()), ..self }
    }

    /// Get a display string of the query, for error messages.
    pub fn query(&self) -> (res: String)
        ensures
            res@ == self@.display(),
    {
        let mut query = String::new();
        if let Some(name) = &self.name {
            query = query.concat("name=").concat(name.as_str()).concat(",");
        }
        let ghost head = query@;
        if let Some(uuid) = &self.uuid {
            query = query.concat("uuid=").concat(uuid.as_str()).concat(",");
        }
        proof {
            reveal_strlit(",");
            if let Some(name) = self@.name {
                assert(head =~= "name="@ + name + ","@);
            }
            if let Some(uuid) = self@.uuid {
                assert(query@ =~= head + ("uuid="@ + uuid + ","@));
            } else {
                assert(query@ =~= head + Seq::<char>::empty());
            }
        }
        trim_end_text(query.as_str(), ",")
    }

    /// Check if an entry with the given name and uuid meets the options.
    pub fn admits_entry(&self, name: &str, uuid: &str) -> (res: bool)
        ensures
            res == self@.matches(name@, uuid@),
    {
        admitted(&self.name, name) && admitted(&self.uuid, uuid)
    }

    /// A copy of the query options.
    pub fn copy(&self) -> (res: Self)
        ensures
            res == *self,
    {
        ZfsQueryArgs { name: clone_opt(&self.name), uuid: clone_opt(&self.uuid) }
    }
}

/// The first control character of a text.
pub open spec fn first_control(s: Seq<char>) -> Option<char>
    decreases s.len(),
{
    if s.len() == 0 {
        None
    } else if is_control(s[0]) {
        Some(s[0])
    } else {
        first_control(s.drop_first())
    }
}

pub proof fn lemma_first_control(s: Seq<char>)
    ensures
        first_control(s) is None <==> control_free(s),
        first_control(s) matches Some(c) ==> is_control(c),
    decreases s.len(),
{
    if s.len() > 0 && !is_control(s[0]) {
        let rest = s.drop_first();
        lemma_first_control(rest);
        if control_free(rest) {
            assert forall|i: int| 0 <= i < s.len() implies !is_control(#[trigger] s[i]) by {
                if i > 0 {
                    assert(s[i] == rest[i - 1]);
                }
            }
        }
        if control_free(s) {
            assert forall|i: int| 0 <= i < rest.len() implies !is_control(#[trigger] rest[i]) by {
                assert(rest[i] == s[i + 1]);
            }
        }
    }
}

/// The first control character of a text.
fn find_control(s: &str) -> (res: Option<char>)
    ensures
        res == first_control(s@),
{
    let chars = chars_of(s);
    assert(s@.skip(0) =~= s@);
    for i in 0..chars.len()
        invariant
            chars@ == s@,
            first_control(s@.skip(i as int)) == first_control(s@),
    {
        if control(chars[i]) {
            return Some(chars[i]);
        }
        assert(s@.skip(i as int).drop_first() =~= s@.skip(i + 1));
    }
    assert(s@.skip(s@.len() as int).len() == 0);
    None
}

/// Why the value of a property is refused, if it is.
pub open spec fn refusal(property: PropertyView) -> Option<ErrorView> {
    match property.value() {
        Some(value) => match first_control(value) {
            Some(bad) => Some(
                ErrorView::InvalidPropertyValue {
                    key: property.key(),
                    error: "value contains a control character (0x"@ + hex2(bad as u32 as nat)
                        + ")"@,
                },
            ),
            None => None,
        },
        None => None,
    }
}

/// The code point of a control character.
fn control_code(c: char) -> (res: u8)
    requires
        is_control(c),
    ensures
        res == c as u32,
{
    c as u8
}

/// Check the value of a property, which must not contain a control character.
fn refuse(property: &Property) -> (res: Option<Error>)
    ensures
        match res {
            Some(error) => refusal(property@) == Some(error@),
            None => refusal(property@) is None,
        },
{
    match property.value() {
        Some(value) => match find_control(value.as_str()) {
            Some(bad) => {
                proof {
                    lemma_first_control(value@);
                }
                Some(
                    Error::InvalidPropertyValue {
                        key: property.key().to_owned(),
                        error: "value contains a control character (0x".to_owned().concat(
                            hex2_text(control_code(bad)).as_str(),
                        ).concat(")"),
                    },
                )
            },
            None => None,
        },
        None => None,
    }
}

/// A zfs or zpool command, with its arguments and the input it is run with.
#[derive(Debug, Clone)]
pub struct ZfsCmd {
    /// The binary to run.
    pub cmd: &'static str,
    /// The arguments of the binary.
    pub argv: Vec<String>,
    /// The input on stdin.
    pub input: Option<String>,
    /// A validation error, deferred from a builder method (e.g. `prop`) so it can be surfaced when
    /// the command is run rather than silently dropped.
    pub deferred: Option<Error>,
}

/// The mathematical view of a command.
#[verifier::ext_equal]
pub struct CmdView {
    pub cmd: Seq<char>,
    pub argv: Seq<Seq<char>>,
    pub input: Option<Seq<char>>,
    pub deferred: Option<ErrorView>,
}

impl View for ZfsCmd {
    type V = CmdView;

    open spec fn view(&self) -> CmdView {
        CmdView {
            cmd: self.cmd@,
            argv: texts(self.argv@),
            input: text_opt(self.input),
            deferred: match self.deferred {
                Some(error) => Some(error@),
                None => None,
            },
        }
    }
}

/// The characters of each text of a list of borrowed texts.
pub open spec fn strs(list: Seq<&str>) -> Seq<Seq<char>> {
    list.map_values(|s: &str| s@)
}

impl CmdView {
    /// The command which runs the binary with the given arguments.
    pub open spec fn of(cmd: Seq<char>, argv: Seq<Seq<char>>) -> CmdView {
        CmdView { cmd, argv, input: None, deferred: None }
    }

    /// The zfs command with the given arguments.
    pub open spec fn zfs(argv: Seq<Seq<char>>) -> CmdView {
        CmdView::of("zfs"@, argv)
    }

    /// The command with one more argument.
    pub open spec fn arg(self, arg: Seq<char>) -> CmdView {
        CmdView { argv: self.argv.push(arg), ..self }
    }

    /// The command with more arguments.
    pub open spec fn args(self, args: Seq<Seq<char>>) -> CmdView {
        CmdView { argv: self.argv + args, ..self }
    }

    /// The command with the property as a creation argument; or, where the value of the property
    /// is refused, and nothing was refused before, the refusal in its place.
    pub open spec fn prop(self, property: PropertyView) -> CmdView {
        if self.deferred is None && refusal(property) is Some {
            CmdView { deferred: refusal(property), ..self }
        } else {
            self.args(seq!["-o"@, property.set_arg()])
        }
    }

    /// The command with the properties as creation arguments.
    pub open spec fn with_props(self, properties: Seq<PropertyView>) -> CmdView
        decreases properties.len(),
    {
        if properties.len() == 0 {
            self
        } else {
            self.with_props(properties.drop_last()).prop(properties.last())
        }
    }

    /// The command with the property as an argument of "zfs set", refused as `prop` refuses it.
    pub open spec fn set_prop(self, property: PropertyView) -> CmdView {
        if self.deferred is None && refusal(property) is Some {
            CmdView { deferred: refusal(property), ..self }
        } else {
            self.arg(property.set_arg())
        }
    }

    /// The command with the properties as arguments of "zfs set".
    pub open spec fn set_props(self, properties: Seq<PropertyView>) -> CmdView
        decreases properties.len(),
    {
        if properties.len() == 0 {
            self
        } else {
            self.set_props(properties.drop_last()).set_prop(properties.last())
        }
    }

    /// The command with key=value pairs as creation arguments.
    pub open spec fn with_pairs(self, pairs: Seq<(Seq<char>, Seq<char>)>) -> CmdView
        decreases pairs.len(),
    {
        if pairs.len() == 0 {
            self
        } else {
            self.with_pairs(pairs.drop_last()).args(
                seq!["-o"@, pairs.last().0 + "="@ + pairs.last().1],
            )
        }
    }
}

/// What came of running a command.
#[derive(Debug, Clone)]
pub enum CmdOutput {
    /// The binary could not be run, or not be waited for; with the text of the failure.
    SpawnFailed(String),
    /// The binary exited.
    Exited { success: bool, stdout: Vec<u8>, stderr: Vec<u8> },
}

/// The outcome of a command.
pub open spec fn outcome_of(cmd: Seq<char>, output: CmdOutput) -> Result<Seq<char>, ErrorView> {
    match output {
        CmdOutput::SpawnFailed(source) => Err(
            ErrorView::ZfsBinSpawnErr { command: cmd, source: source@ },
        ),
        CmdOutput::Exited { success, stdout, stderr } => if success {
            Ok(utf8_lossy(stdout@))
        } else {
            let error = trim(utf8_lossy(stderr@));
            Err(classified(cmd, error, lowercase(error)))
        },
    }
}

/// The view of an outcome.
pub open spec fn outcome_view(outcome: Result<String, Error>) -> Result<Seq<char>, ErrorView> {
    match outcome {
        Ok(stdout) => Ok(stdout@),
        Err(error) => Err(error@),
    }
}

impl ZfsCmd {
    /// Prepare a `Command` for the given zfs subcommand.
    pub fn zfs(sub_cmd: &str) -> (res: Self)
        ensures
            res@ == CmdView::zfs(seq![sub_cmd@]),
    {
        let mut argv: Vec<String> = Vec::new();
        argv.push(sub_cmd.to_owned());
        assert(texts(argv@) =~= seq![sub_cmd@]);
        ZfsCmd { cmd: "zfs", argv, input: None, deferred: None }
    }

    /// Prepare a `Command` for "zpool get".
    pub fn zpool_get() -> (res: Self)
        ensures
            res@ == CmdView::of("zpool"@, seq!["get"@]),
    {
        let mut argv: Vec<String> = Vec::new();
        argv.push("get".to_owned());
        assert(texts(argv@) =~= seq!["get"@]);
        ZfsCmd { cmd: "zpool", argv, input: None, deferred: None }
    }

    /// Add an argument.
    pub fn arg(self, arg: &str) -> (res: Self)
        ensures
            res@ == self@.arg(arg@),
    {
        let mut argv = self.argv;
        let ghost before = argv@;
        argv.push(arg.to_owned());
        assert(texts(argv@) =~= texts(before).push(arg@));
        ZfsCmd { cmd: self.cmd, argv, input: self.input, deferred: self.deferred }
    }

    /// Add arguments.
    pub fn args(self, args: &[&str]) -> (res: Self)
        ensures
            res@ == self@.args(strs(args@)),
    {
        let mut argv = self.argv;
        let ghost before = texts(argv@);
        let ghost all = strs(args@);
        for i in 0..args.len()
            invariant
                all == strs(args@),
                texts(argv@) == before + all.take(i as int),
        {
            let ghost prev = argv@;
            argv.push(args[i].to_owned());
            assert(texts(argv@) =~= texts(prev).push(args@[i as int]@));
            assert(all.take(i + 1) =~= all.take(i as int).push(all[i as int]));
            assert(before + all.take(i + 1) =~= (before + all.take(i as int)).push(all[i as int]));
        }
        assert(all.take(all.len() as int) =~= all);
        ZfsCmd { cmd: self.cmd, argv, input: self.input, deferred: self.deferred }
    }

    /// Add owned arguments.
    pub fn arg_list(self, args: &Vec<String>) -> (res: Self)
        ensures
            res@ == self@.args(texts(args@)),
    {
        let mut argv = self.argv;
        let ghost before = texts(argv@);
        let ghost all = texts(args@);
        for i in 0..args.len()
            invariant
                all == texts(args@),
                texts(argv@) == before + all.take(i as int),
        {
            let ghost prev = argv@;
            argv.push(args[i].clone());
            assert(texts(argv@) =~= texts(prev).push(args@[i as int]@));
            assert(all.take(i + 1) =~= all.take(i as int).push(all[i as int]));
            assert(before + all.take(i + 1) =~= (before + all.take(i as int)).push(all[i as int]));
        }
        assert(all.take(all.len() as int) =~= all);
        ZfsCmd { cmd: self.cmd, argv, input: self.input, deferred: self.deferred }
    }

    /// Add the argument only if the condition is true.
    pub fn arg_if(self, cond: bool, arg: &str) -> (res: Self)
        ensures
            res@ == (if cond {
                self@.arg(arg@)
            } else {
                self@
            }),
    {
        if cond {
            self.arg(arg)
        } else {
            self
        }
    }

    /// Add a creation argument: -o key=value.
    pub fn pair(self, key: &str, value: &str) -> (res: Self)
        ensures
            res@ == self@.args(seq!["-o"@, key@ + "="@ + value@]),
    {
        let text = key.to_owned().concat("=").concat(value);
        let args: [&str; 2] = ["-o", text.as_str()];
        assert(strs(args@) =~= seq!["-o"@, key@ + "="@ + value@]);
        self.args(&args)
    }

    /// Add the key=value pairs as creation arguments.
    pub fn pairs(self, pairs: &[(String, String)]) -> (res: Self)
        ensures
            res@ == self@.with_pairs(text_pairs(pairs@)),
    {
        let ghost all = text_pairs(pairs@);
        let ghost start = self@;
        let mut cmd = self;
        for i in 0..pairs.len()
            invariant
                all == text_pairs(pairs@),
                cmd@ == start.with_pairs(all.take(i as int)),
        {
            assert(all.take(i + 1).drop_last() =~= all.take(i as int));
            assert(all[i as int] == (pairs@[i as int].0@, pairs@[i as int].1@));
            cmd = cmd.pair(pairs[i].0.as_str(), pairs[i].1.as_str());
        }
        assert(all.take(all.len() as int) =~= all);
        cmd
    }

    /// Add the given `Property` as a creation argument: -o key=value.
    ///
    /// The property value is rejected if it contains a control character. ZFS user properties
    /// accept arbitrary strings, but a tab or newline in a value would desynchronize the
    /// tab/newline-delimited `-Hp` output parser (`parse_rows`/`parse_props`) and break
    /// listing/import for the whole pool, so free-form values (name, entity_id, ...) are validated
    /// here and in `set_prop`, one of which every property flows through.
    pub fn prop(self, property: Property) -> (res: Self)
        ensures
            res@ == self@.prop(property@),
    {
        if self.deferred.is_none() {
            if let Some(error) = refuse(&property) {
                return ZfsCmd { deferred: Some(error), ..self };
            }
        }
        let pair = property.create_arg();
        let args: [&str; 2] = [pair[0].as_str(), pair[1].as_str()];
        assert(strs(args@) =~= seq!["-o"@, property@.set_arg()]);
        self.args(&args)
    }

    /// Add the given `Property` as a creation argument, if the condition is true.
    pub fn prop_if(self, cond: bool, property: Property) -> (res: Self)
        ensures
            res@ == (if cond {
                self@.prop(property@)
            } else {
                self@
            }),
    {
        if cond {
            self.prop(property)
        } else {
            self
        }
    }

    /// Add the given `Property` as an argument of "zfs set": key=value. Its value is validated as
    /// that of a creation argument, see `prop`.
    pub fn set_prop(self, property: &Property) -> (res: Self)
        ensures
            res@ == self@.set_prop(property@),
    {
        if self.deferred.is_none() {
            if let Some(error) = refuse(property) {
                return ZfsCmd { deferred: Some(error), ..self };
            }
        }
        self.arg(property.set_arg().as_str())
    }

    /// Add the given properties as arguments of "zfs set".
    pub fn set_props(self, properties: &Vec<Property>) -> (res: Self)
        ensures
            res@ == self@.set_props(property_views(properties@)),
    {
        let ghost all = property_views(properties@);
        let ghost start = self@;
        let mut cmd = self;
        for i in 0..properties.len()
            invariant
                all == property_views(properties@),
                cmd@ == start.set_props(all.take(i as int)),
        {
            assert(all.take(i + 1).drop_last() =~= all.take(i as int));
            assert(all[i as int] == properties@[i as int]@);
            cmd = cmd.set_prop(&properties[i]);
        }
        assert(all.take(all.len() as int) =~= all);
        cmd
    }

    /// Run the command with the given input on stdin.
    pub fn input(self, input: String) -> (res: Self)
        ensures
            res@ == (CmdView { input: Some(input@), ..self@ }),
    {
        ZfsCmd { input: Some(input), ..self }
    }

    /// The full argument vector of the command.
    pub fn argv(&self) -> (res: Vec<String>)
        ensures
            texts(res@) == seq![self@.cmd] + self@.argv,
    {
        let mut argv: Vec<String> = Vec::new();
        argv.push(self.cmd.to_owned());
        let ghost all = self@.argv;
        let ghost head = seq![self@.cmd];
        assert(texts(argv@) =~= head + all.take(0));
        for i in 0..self.argv.len()
            invariant
                all == texts(self.argv@),
                texts(argv@) == head + all.take(i as int),
        {
            let ghost prev = argv@;
            argv.push(self.argv[i].clone());
            assert(texts(argv@) =~= texts(prev).push(all[i as int]));
            assert(head + all.take(i + 1) =~= (head + all.take(i as int)).push(all[i as int]));
        }
        assert(all.take(all.len() as int) =~= all);
        argv
    }

    /// Whether the command may run: a deferred validation error is surfaced before the binary is
    /// spawned.
    pub fn ready(self) -> (res: Result<ZfsCmd, Error>)
        ensures
            res == (match self.deferred {
                Some(error) => Err::<ZfsCmd, Error>(error),
                None => Ok::<ZfsCmd, Error>(self),
            }),
    {
        match self.deferred {
            Some(error) => Err(error),
            None => Ok(self),
        }
    }

    /// The outcome of the command: its stdout as a lossy utf-8 string.
    ///
    /// # Errors
    ///
    /// `Error::ZfsBinSpawnErr` => Failed to execute or await for completion. Stderr-mapped errors,
    /// see `Error::from_zfs_stderr`.
    pub fn outcome(cmd: &str, output: CmdOutput) -> (res: Result<String, Error>)
        ensures
            outcome_view(res) == outcome_of(cmd@, output),
    {
        match output {
            CmdOutput::SpawnFailed(source) => Err(
                Error::ZfsBinSpawnErr { command: cmd.to_owned(), source },
            ),
            CmdOutput::Exited { success, stdout, stderr } => {
                if !success {
                    let error = from_utf8_lossy(&stderr);
                    return Err(Error::from_zfs_stderr(cmd, trim_text(error.as_str())));
                }
                Ok(from_utf8_lossy(&stdout))
            },
        }
    }
}

/// The property, if there is a value for it.
pub open spec fn optional(property: Option<PropertyView>) -> Seq<PropertyView> {
    match property {
        Some(property) => seq![property],
        None => Seq::empty(),
    }
}

/// One property is a list of properties.
pub proof fn lemma_one_prop(cmd: CmdView, property: PropertyView)
    ensures
        cmd.with_props(seq![property]) == cmd.prop(property),
{
    assert(seq![property].drop_last() =~= Seq::empty());
    assert(cmd.with_props(seq![property].drop_last()) == cmd);
}

/// A property can be added at the end.
pub proof fn lemma_push_prop(cmd: CmdView, list: Seq<PropertyView>, property: PropertyView)
    ensures
        cmd.with_props(list.push(property)) == cmd.with_props(list).prop(property),
{
    assert(list.push(property).drop_last() =~= list);
}

/// Properties can be added in two goes.
pub proof fn lemma_with_props_add(cmd: CmdView, a: Seq<PropertyView>, b: Seq<PropertyView>)
    ensures
        cmd.with_props(a + b) == cmd.with_props(a).with_props(b),
    decreases b.len(),
{
    if b.len() == 0 {
        assert(a + b =~= a);
    } else {
        assert((a + b).drop_last() =~= a + b.drop_last());
        lemma_with_props_add(cmd, a, b.drop_last());
    }
}

/// Adds the property to the command, if there is a value for it.
pub fn with_optional(cmd: ZfsCmd, property: Option<Property>) -> (res: ZfsCmd)
    ensures
        res@ == cmd@.with_props(
            optional(
                match property {
                    Some(property) => Some(property@),
                    None => None,
                },
            ),
        ),
{
    match property {
        Some(property) => {
            proof {
                lemma_one_prop(cmd@, property@);
            }
            cmd.prop(property)
        },
        None => cmd,
    }
}

/// The views of properties.
pub open spec fn property_views(properties: Seq<Property>) -> Seq<PropertyView> {
    properties.map_values(|p: Property| p@)
}

/// The source of a ZFS property value, as reported in the SOURCE column of "zfs get". User
/// properties inherit, so ownership checks must require `PropSource::Local`.
#[derive(Debug, Clone, Copy, PartialEq, Eq, Structural)]
pub enum PropSource {
    /// The property is set locally on the dataset itself.
    Local,
    /// The property is inherited from an ancestor dataset.
    Inherited,
    /// The property is at its default value.
    Default,
    /// The property was received via zfs receive.
    Received,
    /// Native statistic properties ("-") and unset properties ("none").
    Unset,
}

/// The source that a text of the SOURCE column stands for.
pub open spec fn source_of(source: Seq<char>) -> PropSource {
    if source == "local"@ {
        PropSource::Local
    } else if source == "default"@ {
        PropSource::Default
    } else if source == "received"@ {
        PropSource::Received
    } else if starts_with(source, "inherited"@) {
        PropSource::Inherited
    } else {
        PropSource::Unset
    }
}

impl PropSource {
    /// Parse the SOURCE column of "zfs get" output.
    pub fn parse(source: &str) -> (res: Self)
        ensures
            res == source_of(source@),
    {
        if str_eq(source, "local") {
            PropSource::Local
        } else if str_eq(source, "default") {
            PropSource::Default
        } else if str_eq(source, "received") {
            PropSource::Received
        } else if starts_with_text(source, "inherited") {
            PropSource::Inherited
        } else {
            PropSource::Unset
        }
    }
}

/// The value of a property and where it comes from.
#[derive(Debug, Clone)]
struct PropEntry {
    key: String,
    value: String,
    source: PropSource,
}

/// The properties that entries stand for: of two with the same key the later one counts.
spec fn entries_map(entries: Seq<PropEntry>) -> Map<Seq<char>, (Seq<char>, PropSource)>
    decreases entries.len(),
{
    if entries.len() == 0 {
        Map::empty()
    } else {
        let last = entries.last();
        entries_map(entries.drop_last()).insert(last.key@, (last.value@, last.source))
    }
}

/// The properties of a single dataset, decoded from the bulk
/// "zfs get -Hp -o name,property,value,source" output.
#[derive(Debug, Clone)]
pub struct DsProps {
    /// The full dataset name, eg: "tank/data/pool-1/replica-1".
    name: String,
    /// The properties as they were reported.
    entries: Vec<PropEntry>,
}

/// The mathematical view of the properties of a dataset.
#[verifier::ext_equal]
pub struct DsPropsView {
    pub name: Seq<char>,
    /// Property name => (value, source).
    pub props: Map<Seq<char>, (Seq<char>, PropSource)>,
}

impl View for DsProps {
    type V = DsPropsView;

    closed spec fn view(&self) -> DsPropsView {
        DsPropsView { name: self.name@, props: entries_map(self.entries@) }
    }
}

impl Default for DsProps {
    fn default() -> (res: Self)
        ensures
            res@ == (DsPropsView { name: Seq::empty(), props: Map::empty() }),
    {
        DsProps { name: String::new(), entries: Vec::new() }
    }
}

/// The views of the properties of datasets.
pub open spec fn props_views(list: Seq<DsProps>) -> Seq<DsPropsView> {
    list.map_values(|d: DsProps| d@)
}

impl DsPropsView {
    /// The value of the property, from any source; none where it is unset.
    pub open spec fn value(self, key: Seq<char>) -> Option<Seq<char>> {
        if self.props.contains_key(key) && self.props[key].0 != "-"@ {
            Some(self.props[key].0)
        } else {
            None
        }
    }

    /// The value of the property, where it is set on the dataset itself.
    pub open spec fn local(self, key: Seq<char>) -> Option<Seq<char>> {
        if self.props.contains_key(key) && self.props[key].1 == PropSource::Local
            && self.props[key].0 != "-"@ {
            Some(self.props[key].0)
        } else {
            None
        }
    }

    /// The value of the property as a number.
    pub open spec fn number(self, key: Seq<char>) -> Option<u64> {
        match self.value(key) {
            Some(value) => parse_u64(value),
            None => None,
        }
    }

    /// The value of the property as a number, zero where it has none.
    pub open spec fn number_or_zero(self, key: Seq<char>) -> u64 {
        match self.number(key) {
            Some(number) => number,
            None => 0,
        }
    }

    /// The dataset is encrypted.
    pub open spec fn encrypted(self) -> bool {
        match self.value("encryption"@) {
            Some(value) => value != "off"@,
            None => false,
        }
    }
}

impl DsProps {
    /// A dataset without any property.
    pub fn new(name: String) -> (res: Self)
        ensures
            res@ == (DsPropsView { name: name@, props: Map::empty() }),
    {
        DsProps { name, entries: Vec::new() }
    }

    /// Sets a property, in place of any it had with the same key.
    pub fn insert(&mut self, key: String, value: String, source: PropSource)
        ensures
            final(self)@ == (DsPropsView {
                name: old(self)@.name,
                props: old(self)@.props.insert(key@, (value@, source)),
            }),
    {
        let ghost before = self.entries@;
        let ghost entry = PropEntry { key, value, source };
        self.entries.push(PropEntry { key, value, source });
        assert(self.entries@.drop_last() =~= before);
    }

    /// The full dataset name.
    pub fn name(&self) -> (res: &str)
        ensures
            res@ == self@.name,
    {
        self.name.as_str()
    }

    /// Find the entry which counts for the given key.
    fn entry(&self, key: &str) -> (res: Option<&PropEntry>)
        ensures
            match res {
                Some(entry) => self@.props.contains_key(key@) && self@.props[key@] == (
                    entry.value@,
                    entry.source,
                ),
                None => !self@.props.contains_key(key@),
            },
    {
        let mut i: usize = self.entries.len();
        assert(self.entries@.take(i as int) =~= self.entries@);
        while i > 0
            invariant
                i <= self.entries@.len(),
                entries_map(self.entries@.take(i as int)).contains_key(key@)
                    == self@.props.contains_key(key@),
                self@.props.contains_key(key@) ==> entries_map(
                    self.entries@.take(i as int),
                )[key@] == self@.props[key@],
            decreases i,
        {
            let ghost front = self.entries@.take(i as int);
            assert(front.drop_last() =~= self.entries@.take(i - 1));
            i = i - 1;
            if str_eq(self.entries[i].key.as_str(), key) {
                return Some(&self.entries[i]);
            }
        }
        None
    }

    /// Get the value of the given property, from any source. Unset properties (value "-") yield
    /// `None`.
    pub fn value(&self, key: &str) -> (res: Option<&str>)
        ensures
            str_opt(res) == self@.value(key@),
    {
        match self.entry(key) {
            Some(entry) => {
                if str_eq(entry.value.as_str(), "-") {
                    None
                } else {
                    Some(entry.value.as_str())
                }
            },
            None => None,
        }
    }

    /// Get the value of the given property, only if it is set locally on the dataset itself. This
    /// is the ownership primitive: inherited user properties do not mark a dataset as ours.
    pub fn local(&self, key: &str) -> (res: Option<&str>)
        ensures
            str_opt(res) == self@.local(key@),
    {
        match self.entry(key) {
            Some(entry) => {
                if entry.source == PropSource::Local && !str_eq(entry.value.as_str(), "-") {
                    Some(entry.value.as_str())
                } else {
                    None
                }
            },
            None => None,
        }
    }

    /// Get the value of the given property, only if it is set locally, as an owned text.
    pub fn local_text(&self, key: &str) -> (res: Option<String>)
        ensures
            text_opt(res) == self@.local(key@),
    {
        match self.local(key) {
            Some(value) => Some(value.to_owned()),
            None => None,
        }
    }

    /// Get the value of the given property, from any source, as an owned text.
    pub fn value_text(&self, key: &str) -> (res: Option<String>)
        ensures
            text_opt(res) == self@.value(key@),
    {
        match self.value(key) {
            Some(value) => Some(value.to_owned()),
            None => None,
        }
    }

    /// Get the value of the given property as a u64, from any source.
    pub fn u64(&self, key: &str) -> (res: Option<u64>)
        ensures
            res == self@.number(key@),
    {
        match self.value(key) {
            Some(value) => parse_u64_text(value),
            None => None,
        }
    }

    /// Get the value of the given property as a u64, from any source, zero if it has none.
    pub fn u64_or_zero(&self, key: &str) -> (res: u64)
        ensures
            res == self@.number_or_zero(key@),
    {
        match self.u64(key) {
            Some(number) => number,
            None => 0,
        }
    }

    /// Check if the given property is set to "on", from any source.
    pub fn bool_on(&self, key: &str) -> (res: bool)
        ensures
            res == (self@.value(key@) == Some("on"@)),
    {
        match self.value(key) {
            Some(value) => str_eq(value, "on"),
            None => false,
        }
    }

    /// Check if the dataset is encrypted.
    pub fn encrypted(&self) -> (res: bool)
        ensures
            res == self@.encrypted(),
    {
        match self.value("encryption") {
            Some(value) => !str_eq(value, "off"),
            None => false,
        }
    }
}

/// The characters of the cells of rows.
pub open spec fn row_views(rows: Seq<Vec<String>>) -> Seq<Seq<Seq<char>>> {
    rows.map_values(|row: Vec<String>| texts(row@))
}

/// The rows that lines stand for, up to the first line with another number of columns.
pub open spec fn rows_of_lines(
    command: Seq<char>,
    lines: Seq<Seq<char>>,
    ncols: nat,
) -> Result<Seq<Seq<Seq<char>>>, ErrorView>
    decreases lines.len(),
{
    if lines.len() == 0 {
        Ok(Seq::empty())
    } else {
        match rows_of_lines(command, lines.drop_last(), ncols) {
            Err(error) => Err(error),
            Ok(rows) => {
                let line = lines.last();
                let cols = split(line, '\t');
                if cols.len() != ncols {
                    Err(
                        ErrorView::OutputParsing {
                            command,
                            error: "expected "@ + decimal(ncols) + " columns, got "@ + decimal(
                                cols.len(),
                            ) + ": '"@ + line + "'"@,
                        },
                    )
                } else {
                    Ok(rows.push(cols))
                }
            },
        }
    }
}

/// The rows that -Hp tab-separated output stands for: one for each line which is not empty.
pub open spec fn rows_of(command: Seq<char>, output: Seq<char>, ncols: nat) -> Result<
    Seq<Seq<Seq<char>>>,
    ErrorView,
> {
    rows_of_lines(command, nonempty(lines(output)), ncols)
}

/// The view of decoded rows.
pub open spec fn rows_result(res: Result<Vec<Vec<String>>, Error>) -> Result<
    Seq<Seq<Seq<char>>>,
    ErrorView,
> {
    match res {
        Ok(rows) => Ok(row_views(rows@)),
        Err(error) => Err(error@),
    }
}

proof fn lemma_rows_fail(command: Seq<char>, lines: Seq<Seq<char>>, ncols: nat, n: int)
    requires
        0 <= n <= lines.len(),
        rows_of_lines(command, lines.take(n), ncols) is Err,
    ensures
        rows_of_lines(command, lines, ncols) == rows_of_lines(command, lines.take(n), ncols),
    decreases lines.len() - n,
{
    if n == lines.len() {
        assert(lines.take(n) =~= lines);
    } else {
        assert(lines.take(n + 1).drop_last() =~= lines.take(n));
        lemma_rows_fail(command, lines, ncols, n + 1);
    }
}

/// Every row that is decoded has the wanted number of columns.
pub proof fn lemma_row_width(command: Seq<char>, lines: Seq<Seq<char>>, ncols: nat)
    ensures
        rows_of_lines(command, lines, ncols) matches Ok(rows) ==> forall|i: int|
            0 <= i < rows.len() ==> (#[trigger] rows[i]).len() == ncols,
    decreases lines.len(),
{
    if lines.len() > 0 {
        lemma_row_width(command, lines.drop_last(), ncols);
    }
}

/// The texts of a list that are not empty.
fn nonempty_texts(list: Vec<String>) -> (res: Vec<String>)
    ensures
        texts(res@) == nonempty(texts(list@)),
{
    let ghost all = texts(list@);
    let ghost keep = |s: Seq<char>| s.len() > 0;
    let mut res: Vec<String> = Vec::new();
    proof {
        assert(all.take(0) =~= Seq::empty());
        reveal(Seq::filter);
    }
    for i in 0..list.len()
        invariant
            all == texts(list@),
            keep == (|s: Seq<char>| s.len() > 0),
            texts(res@) == all.take(i as int).filter(keep),
    {
        let ghost before = res@;
        proof {
            reveal(Seq::filter);
            assert(all.take(i + 1).drop_last() =~= all.take(i as int));
            assert(all[i as int] == list@[i as int]@);
        }
        if list[i].as_str().unicode_len() > 0 {
            res.push(list[i].clone());
            assert(texts(res@) =~= texts(before).push(list@[i as int]@));
        }
    }
    assert(all.take(all.len() as int) =~= all);
    res
}

/// Parse -Hp tab-separated output into rows of exactly `ncols` columns.
pub fn parse_rows(command: &str, output: &str, ncols: usize) -> (res: Result<
    Vec<Vec<String>>,
    Error,
>)
    ensures
        rows_result(res) == rows_of(command@, output@, ncols as nat),
{
    let list = nonempty_texts(lines_text(output));
    let ghost all = nonempty(lines(output@));
    let mut rows: Vec<Vec<String>> = Vec::new();
    assert(row_views(rows@) =~= Seq::empty());
    for i in 0..list.len()
        invariant
            texts(list@) == all,
            all == nonempty(lines(output@)),
            rows_of_lines(command@, all.take(i as int), ncols as nat) == Ok::<
                Seq<Seq<Seq<char>>>,
                ErrorView,
            >(row_views(rows@)),
    {
        let ghost before = rows@;
        proof {
            assert(all.take(i + 1).drop_last() =~= all.take(i as int));
            assert(all[i as int] == list@[i as int]@);
        }
        let line = list[i].as_str();
        let cols = split_text(line, '\t');
        assert(texts(cols@).len() == cols@.len());
        if cols.len() != ncols {
            proof {
                lemma_rows_fail(command@, all, ncols as nat, i + 1);
            }
            return Err(
                Error::OutputParsing {
                    command: command.to_owned(),
                    error: "expected ".to_owned().concat(
                        decimal_text(ncols as u64).as_str(),
                    ).concat(" columns, got ").concat(
                        decimal_text(cols.len() as u64).as_str(),
                    ).concat(": '").concat(line).concat("'"),
                },
            );
        }
        rows.push(cols);
        assert(row_views(rows@) =~= row_views(before).push(split(all[i as int], '\t')));
    }
    assert(all.take(all.len() as int) =~= all);
    Ok(rows)
}

/// The position of the first dataset with the given name; the length of the list where there is
/// none.
pub open spec fn position_of(list: Seq<DsPropsView>, name: Seq<char>) -> int
    decreases list.len(),
{
    if list.len() == 0 || list[0].name == name {
        0
    } else {
        1 + position_of(list.drop_first(), name)
    }
}

/// The datasets with one more row of the columns name, property, value and source.
pub open spec fn with_row(list: Seq<DsPropsView>, row: Seq<Seq<char>>) -> Seq<DsPropsView> {
    let at = position_of(list, row[0]);
    let entry = (row[2], source_of(row[3]));
    if at < list.len() {
        list.update(
            at,
            DsPropsView { name: list[at].name, props: list[at].props.insert(row[1], entry) },
        )
    } else {
        list.push(DsPropsView { name: row[0], props: Map::empty().insert(row[1], entry) })
    }
}

/// The datasets that rows stand for, in the order in which they first occur.
pub open spec fn props_of_rows(rows: Seq<Seq<Seq<char>>>) -> Seq<DsPropsView>
    decreases rows.len(),
{
    if rows.len() == 0 {
        Seq::empty()
    } else {
        with_row(props_of_rows(rows.drop_last()), rows.last())
    }
}

/// The datasets that bulk output stands for.
pub open spec fn props_of(command: Seq<char>, output: Seq<char>) -> Result<
    Seq<DsPropsView>,
    ErrorView,
> {
    match rows_of(command, output, 4) {
        Err(error) => Err(error),
        Ok(rows) => Ok(props_of_rows(rows)),
    }
}

/// The view of decoded datasets.
pub open spec fn props_result(res: Result<Vec<DsProps>, Error>) -> Result<
    Seq<DsPropsView>,
    ErrorView,
> {
    match res {
        Ok(list) => Ok(props_views(list@)),
        Err(error) => Err(error@),
    }
}

/// No two datasets have the same name.
pub open spec fn distinct_names(list: Seq<DsPropsView>) -> bool {
    forall|i: int, j: int|
        0 <= i < j < list.len() ==> (#[trigger] list[i]).name != (#[trigger] list[j]).name
}

pub proof fn lemma_position(list: Seq<DsPropsView>, name: Seq<char>)
    ensures
        0 <= position_of(list, name) <= list.len(),
        position_of(list, name) < list.len() ==> list[position_of(list, name)].name == name,
        forall|j: int| 0 <= j < position_of(list, name) ==> (#[trigger] list[j]).name != name,
    decreases list.len(),
{
    if list.len() > 0 && list[0].name != name {
        let rest = list.drop_first();
        lemma_position(rest, name);
        assert forall|j: int| 0 <= j < position_of(list, name) implies (#[trigger] list[j]).name
            != name by {
            if j > 0 {
                assert(list[j] == rest[j - 1]);
            }
        }
    }
}

/// The decoded datasets have distinct names.
pub proof fn lemma_distinct_names(rows: Seq<Seq<Seq<char>>>)
    ensures
        distinct_names(props_of_rows(rows)),
    decreases rows.len(),
{
    if rows.len() > 0 {
        let before = props_of_rows(rows.drop_last());
        lemma_distinct_names(rows.drop_last());
        lemma_position(before, rows.last()[0]);
        let after = props_of_rows(rows);
        assert forall|i: int, j: int| 0 <= i < j < after.len() implies (#[trigger] after[i]).name
            != (#[trigger] after[j]).name by {
            if j < before.len() {
                assert(after[i].name == before[i].name && after[j].name == before[j].name);
            } else {
                assert(after[i].name == before[i].name);
            }
        }
    }
}

/// Find the dataset with the given name. The one looked for is most often the last.
fn find_dataset(list: &Vec<DsProps>, name: &str) -> (res: usize)
    requires
        distinct_names(props_views(list@)),
    ensures
        res == position_of(props_views(list@), name@),
{
    let ghost views = props_views(list@);
    let n = list.len();
    proof {
        lemma_position(views, name@);
    }
    if n > 0 && str_eq(list[n - 1].name(), name) {
        assert(views[n - 1] == list@[n - 1]@);
        return n - 1;
    }
    for i in 0..n
        invariant
            n == list@.len(),
            views == props_views(list@),
            forall|j: int| 0 <= j < i ==> (#[trigger] views[j]).name != name@,
    {
        assert(views[i as int] == list@[i as int]@);
        if str_eq(list[i].name(), name) {
            proof {
                lemma_position(views, name@);
            }
            return i;
        }
    }
    n
}

/// The properties of the first dataset with the given name.
pub open spec fn props_named(list: Seq<DsPropsView>, name: Seq<char>) -> Option<DsPropsView> {
    let at = position_of(list, name);
    if at < list.len() {
        Some(list[at])
    } else {
        None
    }
}

/// Find the properties of the dataset with the given name.
pub fn find_props<'a>(list: &'a Vec<DsProps>, name: &str) -> (res: Option<&'a DsProps>)
    ensures
        match res {
            Some(props) => props_named(props_views(list@), name@) == Some(props@),
            None => props_named(props_views(list@), name@) is None,
        },
{
    let ghost views = props_views(list@);
    proof {
        lemma_position(views, name@);
    }
    for i in 0..list.len()
        invariant
            views == props_views(list@),
            0 <= position_of(views, name@) <= views.len(),
            position_of(views, name@) < views.len() ==> views[position_of(views, name@)].name
                == name@,
            forall|j: int| 0 <= j < position_of(views, name@) ==> (#[trigger] views[j]).name
                != name@,
            forall|j: int| 0 <= j < i ==> (#[trigger] views[j]).name != name@,
    {
        assert(views[i as int] == list@[i as int]@);
        if str_eq(list[i].name(), name) {
            return Some(&list[i]);
        }
    }
    None
}

/// The pairs that rows of two columns stand for.
pub open spec fn pairs_of(command: Seq<char>, output: Seq<char>) -> Result<
    Seq<(Seq<char>, Seq<char>)>,
    ErrorView,
> {
    match rows_of(command, output, 2) {
        Err(error) => Err(error),
        Ok(rows) => Ok(rows.map_values(|row: Seq<Seq<char>>| (row[0], row[1]))),
    }
}

/// The view of decoded pairs.
pub open spec fn pairs_result(res: Result<Vec<(String, String)>, Error>) -> Result<
    Seq<(Seq<char>, Seq<char>)>,
    ErrorView,
> {
    match res {
        Ok(pairs) => Ok(text_pairs(pairs@)),
        Err(error) => Err(error@),
    }
}

/// Parse -Hp tab-separated output of two columns.
pub fn parse_pairs(command: &str, output: &str) -> (res: Result<Vec<(String, String)>, Error>)
    ensures
        pairs_result(res) == pairs_of(command@, output@),
{
    let rows = match parse_rows(command, output, 2) {
        Err(error) => {
            return Err(error);
        },
        Ok(rows) => rows,
    };
    let ghost all = row_views(rows@);
    let ghost pair = |row: Seq<Seq<char>>| (row[0], row[1]);
    proof {
        lemma_row_width(command@, nonempty(lines(output@)), 2);
    }
    let mut pairs: Vec<(String, String)> = Vec::new();
    for i in 0..rows.len()
        invariant
            all == row_views(rows@),
            pair == (|row: Seq<Seq<char>>| (row[0], row[1])),
            forall|j: int| 0 <= j < all.len() ==> (#[trigger] all[j]).len() == 2,
            pairs@.len() == i,
            forall|j: int|
                0 <= j < i ==> #[trigger] text_pairs(pairs@)[j] == pair(all[j]),
    {
        let ghost before = pairs@;
        proof {
            assert(all[i as int].len() == 2);
            assert(all[i as int] == texts(rows@[i as int]@));
            let cells = rows@[i as int]@;
            assert(all[i as int][0] == cells[0]@ && all[i as int][1] == cells[1]@);
        }
        let row = &rows[i];
        pairs.push((row[0].clone(), row[1].clone()));
        assert(text_pairs(pairs@) =~= text_pairs(before).push(pair(all[i as int])));
    }
    assert(text_pairs(pairs@) =~= all.map_values(pair));
    Ok(pairs)
}

/// Parse the bulk "zfs get -Hp -o name,property,value,source" output into a `DsProps` per dataset,
/// preserving the dataset output order.
pub fn parse_props(command: &str, output: &str) -> (res: Result<Vec<DsProps>, Error>)
    ensures
        props_result(res) == props_of(command@, output@),
{
    let rows = match parse_rows(command, output, 4) {
        Err(error) => {
            return Err(error);
        },
        Ok(rows) => rows,
    };
    let ghost all = row_views(rows@);
    proof {
        lemma_row_width(command@, nonempty(lines(output@)), 4);
    }
    let mut list: Vec<DsProps> = Vec::new();
    assert(props_views(list@) =~= Seq::empty());
    for i in 0..rows.len()
        invariant
            all == row_views(rows@),
            forall|j: int| 0 <= j < all.len() ==> (#[trigger] all[j]).len() == 4,
            props_views(list@) == props_of_rows(all.take(i as int)),
    {
        let ghost before = list@;
        let ghost views = props_views(list@);
        proof {
            assert(all.take(i + 1).drop_last() =~= all.take(i as int));
            lemma_distinct_names(all.take(i as int));
            lemma_position(views, all[i as int][0]);
            assert(all[i as int] == texts(rows@[i as int]@));
            assert(all[i as int].len() == 4);
            assert(all.take(i + 1).last() == all[i as int]);
            let cells = rows@[i as int]@;
            assert(all[i as int][0] == cells[0]@ && all[i as int][1] == cells[1]@);
            assert(all[i as int][2] == cells[2]@ && all[i as int][3] == cells[3]@);
        }
        let row = &rows[i];
        let source = PropSource::parse(row[3].as_str());
        let at = find_dataset(&list, row[0].as_str());
        if at < list.len() {
            assert(views[at as int] == before[at as int]@);
            list[at].insert(row[1].clone(), row[2].clone(), source);
            assert(props_views(list@) =~= with_row(views, all[i as int]));
        } else {
            let mut entry = DsProps::new(row[0].clone());
            entry.insert(row[1].clone(), row[2].clone(), source);
            list.push(entry);
            assert(props_views(list@) =~= with_row(views, all[i as int]));
        }
    }
    assert(all.take(all.len() as int) =~= all);
    Ok(list)
}

} // verus!
