//! The execution coordinator: the form built from the schema, its
//! serialization into command-line tokens, the re-validation of those tokens
//! by the schema's parser, the run dispatcher's state and the output buffer.
use vstd::prelude::*;
use vstd::string::*;

use crate::dispatch::{next_state, RunEvent, RunState};
use crate::misc::{describes, describes_arg, AppInfo, ArgState};
use crate::schema::{
    accepts, arguments_of, built_of, command_arguments, id_of, refusal_of, try_matches,
    well_declared,
};

verus! {

/// The editable state of one argument: the switch of a flag, the text of an
/// argument that takes a value. An empty text leaves the schema's default.
#[derive(Debug, PartialEq)]
pub struct FormEntry {
    pub flag_set: bool,
    pub text_value: String,
}

impl FormEntry {
    /// The state every argument starts in: switch off, text empty.
    pub open spec fn is_blank(self) -> bool {
        !self.flag_set && self.text_value@.len() == 0
    }

    /// Whether `other` holds the same switch and the same text.
    pub open spec fn same_as(self, other: FormEntry) -> bool {
        self.flag_set == other.flag_set && self.text_value@ == other.text_value@
    }

    /// A blank entry.
    pub fn blank() -> (r: FormEntry)
        ensures
            r.is_blank(),
    {
        FormEntry { flag_set: false, text_value: String::new() }
    }

    /// A copy of this entry.
    pub fn duplicate(&self) -> (r: FormEntry)
        ensures
            r == *self,
    {
        FormEntry { flag_set: self.flag_set, text_value: self.text_value.clone() }
    }
}

/// The keys that the schema reserves for itself, which the form leaves out.
pub open spec fn is_reserved(name: Seq<char>) -> bool {
    name == seq!['h', 'e', 'l', 'p'] || name == seq!['v', 'e', 'r', 's', 'i', 'o', 'n']
}

/// The descriptors of `candidates` whose keys are not reserved, in order.
pub open spec fn editable(candidates: Seq<ArgState>) -> Seq<ArgState>
    decreases candidates.len(),
{
    if candidates.len() == 0 {
        Seq::empty()
    } else {
        let rest = editable(candidates.drop_last());
        if is_reserved(candidates.last().name@) {
            rest
        } else {
            rest.push(candidates.last())
        }
    }
}

/// Whether `name` is a reserved key.
fn is_reserved_name(name: &String) -> (r: bool)
    ensures
        r == is_reserved(name@),
{
    let help = String::from_str("help");
    let version = String::from_str("version");
    proof {
        reveal_strlit("help");
        reveal_strlit("version");
        assert("help"@ =~= seq!['h', 'e', 'l', 'p']);
        assert("version"@ =~= seq!['v', 'e', 'r', 's', 'i', 'o', 'n']);
    }
    *name == help || *name == version
}

/// The schema's arguments whose identifiers are not reserved, in order.
pub open spec fn editable_args(args: Seq<clap::Arg>) -> Seq<clap::Arg>
    decreases args.len(),
{
    if args.len() == 0 {
        Seq::empty()
    } else {
        let rest = editable_args(args.drop_last());
        if is_reserved(id_of(args.last())) {
            rest
        } else {
            rest.push(args.last())
        }
    }
}

/// Descriptors of the schema's arguments, one for one, keep being so once
/// the reserved ones are left out.
proof fn lemma_editable_pointwise(candidates: Seq<ArgState>, args: Seq<clap::Arg>)
    requires
        candidates.len() == args.len(),
        forall|i: int| 0 <= i < args.len() ==> describes_arg(#[trigger] candidates[i], args[i]),
    ensures
        editable(candidates).len() == editable_args(args).len(),
        forall|i: int|
            0 <= i < editable_args(args).len() ==> describes_arg(
                #[trigger] editable(candidates)[i],
                editable_args(args)[i],
            ),
    decreases args.len(),
{
    if args.len() > 0 {
        let c = candidates.drop_last();
        let a = args.drop_last();
        assert forall|i: int| 0 <= i < a.len() implies describes_arg(#[trigger] c[i], a[i]) by {
            assert(describes_arg(candidates[i], args[i]));
        }
        lemma_editable_pointwise(c, a);
        assert(describes_arg(candidates[args.len() - 1], args[args.len() - 1]));
    }
}

/// The token that names the option keyed `name`.
fn option_token(name: &String) -> (r: String)
    ensures
        r@ == flag_token(name@),
{
    let mut t = String::from_str("--");
    proof {
        reveal_strlit("--");
        assert("--"@ =~= seq!['-', '-']);
    }
    t.append(name.as_str());
    t
}

/// The token that names the option keyed `name`.
pub open spec fn flag_token(name: Seq<char>) -> Seq<char> {
    seq!['-', '-'] + name
}

/// The tokens for one argument: the option and its text when it takes a
/// value and the text is not empty, the option alone when it is a switch
/// that is on, and nothing otherwise.
pub open spec fn arg_tokens(a: ArgState, e: FormEntry) -> Seq<Seq<char>> {
    if a.takes_value {
        if e.text_value@.len() > 0 {
            seq![flag_token(a.name@), e.text_value@]
        } else {
            Seq::empty()
        }
    } else if e.flag_set {
        seq![flag_token(a.name@)]
    } else {
        Seq::empty()
    }
}

/// The tokens for the first `n` arguments, in declaration order.
pub open spec fn tokens_upto(args: Seq<ArgState>, form: Seq<FormEntry>, n: nat) -> Seq<Seq<char>>
    decreases n,
{
    if n == 0 {
        Seq::empty()
    } else {
        tokens_upto(args, form, (n - 1) as nat) + arg_tokens(args[n - 1], form[n - 1])
    }
}

/// The command line that the form stands for: the program first, then the
/// tokens of each argument in declaration order.
pub open spec fn serialized(program: Seq<char>, args: Seq<ArgState>, form: Seq<FormEntry>) -> Seq<
    Seq<char>,
> {
    seq![program] + tokens_upto(args, form, args.len())
}

/// The form after every argument keyed `name` is given `entry`.
pub open spec fn form_with(args: Seq<ArgState>, form: Seq<FormEntry>, name: Seq<char>, entry: FormEntry) -> Seq<FormEntry> {
    Seq::new(form.len(), |i: int| if args[i].name@ == name { entry } else { form[i] })
}

/// The buffer after one drain of the captured output `out` and error `err`.
pub open spec fn drained(buffer: Seq<char>, out: Seq<char>, err: Seq<char>) -> Seq<char> {
    buffer + out + err
}


/// The coordinator of one program's form: the schema, the descriptors of its
/// editable arguments, one form entry per descriptor, the output buffer and
/// whether a run is in flight.
pub struct Claui {
    app: clap::Command,
    app_info: AppInfo,
    args: Vec<ArgState>,
    ui_arg_state: Vec<FormEntry>,
    buffer: String,
    state: RunState,
}

impl Claui {
    /// Each descriptor has exactly one entry, descriptors that share a key
    /// share its entry, and no descriptor has a reserved key.
    #[verifier::type_invariant]
    spec fn inv(self) -> bool {
        &&& self.ui_arg_state@.len() == self.args@.len()
        &&& forall|i: int, j: int|
            0 <= i < self.args@.len() && 0 <= j < self.args@.len() && #[trigger] self.args@[i].name@
                == #[trigger] self.args@[j].name@ ==> self.ui_arg_state@[i].same_as(
                self.ui_arg_state@[j],
            )
        &&& forall|i: int| 0 <= i < self.args@.len() ==> !is_reserved(#[trigger] self.args@[i].name@)
        &&& well_declared(self.app)
    }

    /// The descriptors of the editable arguments, in declaration order.
    pub closed spec fn descriptors(&self) -> Seq<ArgState> {
        self.args@
    }

    /// The form entries, one for each descriptor, in the same order.
    pub closed spec fn form(&self) -> Seq<FormEntry> {
        self.ui_arg_state@
    }

    /// The text of the output buffer.
    pub closed spec fn output(&self) -> Seq<char> {
        self.buffer@
    }

    /// Whether a run is in flight.
    pub closed spec fn run_state(&self) -> RunState {
        self.state
    }

    /// What the program says of itself.
    pub closed spec fn info(&self) -> AppInfo {
        self.app_info
    }

    /// The schema.
    pub closed spec fn schema(&self) -> clap::Command {
        self.app
    }

    /// A coordinator for `app`, whose editable arguments are those of
    /// `candidates` with keys that are not reserved, each with a blank entry;
    /// the buffer is empty and no run is in flight.
    pub fn with_descriptors(app: clap::Command, app_info: AppInfo, candidates: Vec<ArgState>) -> (r: Claui)
        requires
            well_declared(app),
        ensures
            r.descriptors() == editable(candidates@),
            forall|i: int|
                0 <= i < r.descriptors().len() ==> !is_reserved(#[trigger] r.descriptors()[i].name@),
            r.form().len() == r.descriptors().len(),
            forall|i: int| 0 <= i < r.form().len() ==> (#[trigger] r.form()[i]).is_blank(),
            r.output().len() == 0,
            r.run_state() == RunState::Idle,
            r.info() == app_info,
            r.schema() == app,
    {
        let mut args: Vec<ArgState> = Vec::new();
        let mut entries: Vec<FormEntry> = Vec::new();
        let mut i: usize = 0;
        while i < candidates.len()
            invariant
                i <= candidates@.len(),
                args@ == editable(candidates@.subrange(0, i as int)),
                entries@.len() == args@.len(),
                forall|k: int| 0 <= k < entries@.len() ==> (#[trigger] entries@[k]).is_blank(),
                forall|k: int| 0 <= k < args@.len() ==> !is_reserved(#[trigger] args@[k].name@),
            decreases candidates@.len() - i,
        {
            let c = &candidates[i];
            if !is_reserved_name(&c.name) {
                args.push(c.duplicate());
                entries.push(FormEntry::blank());
            }
            proof {
                assert(candidates@.subrange(0, i + 1).drop_last() =~= candidates@.subrange(0, i as int));
            }
            i = i + 1;
        }
        proof {
            assert(candidates@.subrange(0, i as int) =~= candidates@);
            assert forall|p: int, q: int|
                0 <= p < args@.len() && 0 <= q < args@.len() && #[trigger] args@[p].name@
                    == #[trigger] args@[q].name@ implies entries@[p].same_as(entries@[q]) by {
                assert(entries@[p].is_blank() && entries@[q].is_blank());
                assert(entries@[p].text_value@ =~= entries@[q].text_value@);
            }
        }
        Claui { app, app_info, args, ui_arg_state: entries, buffer: String::new(), state: RunState::Idle }
    }

    /// A coordinator for `app`, once built: what it declares of itself, a
    /// descriptor for each declared argument but the reserved ones, in
    /// declaration order, each with a blank entry; the buffer is empty and
    /// no run is in flight.
    pub fn new(app: clap::Command) -> (r: Claui)
        requires
            well_declared(app),
        ensures
            r.schema() == built_of(app),
            describes(r.info(), built_of(app)),
            r.descriptors().len() == editable_args(arguments_of(built_of(app))).len(),
            forall|i: int|
                0 <= i < r.descriptors().len() ==> describes_arg(
                    #[trigger] r.descriptors()[i],
                    editable_args(arguments_of(built_of(app)))[i],
                ),
            forall|i: int|
                0 <= i < r.descriptors().len() ==> !is_reserved(#[trigger] r.descriptors()[i].name@),
            r.form().len() == r.descriptors().len(),
            forall|i: int| 0 <= i < r.form().len() ==> (#[trigger] r.form()[i]).is_blank(),
            r.output().len() == 0,
            r.run_state() == RunState::Idle,
    {
        let mut app = app;
        app.build();
        let app_info = AppInfo::new(&app);
        let arguments = command_arguments(&app);
        let mut candidates: Vec<ArgState> = Vec::new();
        let mut i: usize = 0;
        while i < arguments.len()
            invariant
                i <= arguments@.len(),
                candidates@.len() == i,
                forall|k: int|
                    0 <= k < candidates@.len() ==> describes_arg(
                        #[trigger] candidates@[k],
                        arguments@[k],
                    ),
            decreases arguments@.len() - i,
        {
            candidates.push(ArgState::new(&arguments[i]));
            i = i + 1;
        }
        proof {
            lemma_editable_pointwise(candidates@, arguments@);
        }
        Claui::with_descriptors(app, app_info, candidates)
    }

    /// The command line that the form stands for, after the program token
    /// `program`: for each descriptor in declaration order, `--<key>` and the
    /// text when it takes a value and its text is not empty, `--<key>` alone
    /// when it is a switch that is on.
    pub fn get_arg_output(&self, program: &str) -> (r: Vec<String>)
        ensures
            r.deep_view() == serialized(program@, self.descriptors(), self.form()),
    {
        proof {
            use_type_invariant(self);
        }
        let mut res: Vec<String> = Vec::new();
        res.push(String::from_str(program));
        proof {
            assert(res.deep_view() =~= seq![program@] + tokens_upto(self.args@, self.ui_arg_state@, 0));
        }
        let mut i: usize = 0;
        while i < self.args.len()
            invariant
                i <= self.args@.len(),
                self.ui_arg_state@.len() == self.args@.len(),
                res.deep_view() == seq![program@] + tokens_upto(self.args@, self.ui_arg_state@, i as nat),
            decreases self.args@.len() - i,
        {
            let arg = &self.args[i];
            let entry = &self.ui_arg_state[i];
            let ghost before = res.deep_view();
            if arg.takes_value {
                if !entry.text_value.as_str().is_empty() {
                    res.push(option_token(&arg.name));
                    res.push(entry.text_value.clone());
                }
            } else if entry.flag_set {
                res.push(option_token(&arg.name));
            }
            proof {
                assert(res.deep_view() =~= before + arg_tokens(self.args@[i as int], self.ui_arg_state@[i as int]));
                assert(tokens_upto(self.args@, self.ui_arg_state@, (i + 1) as nat) == tokens_upto(self.args@, self.ui_arg_state@, i as nat) + arg_tokens(self.args@[i as int], self.ui_arg_state@[i as int]));
                assert(res.deep_view() =~= seq![program@] + tokens_upto(self.args@, self.ui_arg_state@, (i + 1) as nat));
            }
            i = i + 1;
        }
        res
    }

    /// Gives every argument keyed `name` the entry `entry`; the other
    /// entries, and everything else, stay as they were. The key must be one
    /// of the descriptors'.
    pub fn set_entry(&mut self, name: &str, entry: FormEntry)
        requires
            exists|i: int|
                0 <= i < old(self).descriptors().len() && (#[trigger] old(self).descriptors()[i]).name@
                    == name@,
        ensures
            final(self).form() == form_with(old(self).descriptors(), old(self).form(), name@, entry),
            final(self).descriptors() == old(self).descriptors(),
            final(self).output() == old(self).output(),
            final(self).run_state() == old(self).run_state(),
            final(self).info() == old(self).info(),
            final(self).schema() == old(self).schema(),
    {
        proof {
            use_type_invariant(&*self);
        }
        let key = String::from_str(name);
        let mut updated: Vec<FormEntry> = Vec::new();
        let mut i: usize = 0;
        while i < self.args.len()
            invariant
                i <= self.args@.len(),
                self.ui_arg_state@.len() == self.args@.len(),
                key@ == name@,
                updated@ =~= form_with(self.args@, self.ui_arg_state@, name@, entry).subrange(0, i as int),
            decreases self.args@.len() - i,
        {
            let ghost target = form_with(self.args@, self.ui_arg_state@, name@, entry);
            if self.args[i].name == key {
                updated.push(entry.duplicate());
            } else {
                updated.push(self.ui_arg_state[i].duplicate());
            }
            assert(updated@[i as int] == target[i as int]);
            assert(updated@ =~= target.subrange(0, i + 1));
            i = i + 1;
        }
        proof {
            let n = self.args@.len();
            let args = self.args@;
            let old_form = self.ui_arg_state@;
            assert(updated@ =~= form_with(args, old_form, name@, entry));
            assert forall|p: int, q: int|
                0 <= p < n && 0 <= q < n && #[trigger] args[p].name@ == #[trigger] args[q].name@
                implies updated@[p].same_as(updated@[q]) by {
                assert(old_form[p].same_as(old_form[q]));
            }
        }
        self.ui_arg_state = updated;
    }

    /// Starts a run on the outcome of validating the form: with a run in
    /// flight nothing changes and nothing starts. Otherwise, when the schema
    /// accepted the tokens, the buffer is cleared, the dispatcher is running
    /// and the validated arguments are handed back for the worker; when it
    /// refused them, its message is appended to the buffer and the dispatcher
    /// stays idle.
    pub fn dispatch(&mut self, validated: Result<clap::ArgMatches, String>) -> (r: Option<
        clap::ArgMatches,
    >)
        ensures
            old(self).run_state() == RunState::Running ==> r.is_none() && *final(self) == *old(self),
            old(self).run_state() == RunState::Idle ==> match validated {
                Ok(m) => r == Some(m) && final(self).output().len() == 0 && final(self).run_state()
                    == RunState::Running,
                Err(msg) => r.is_none() && final(self).output() == old(self).output() + msg@
                    && final(self).run_state() == RunState::Idle,
            },
            final(self).descriptors() == old(self).descriptors(),
            final(self).form() == old(self).form(),
            final(self).info() == old(self).info(),
            final(self).schema() == old(self).schema(),
    {
        proof {
            use_type_invariant(&*self);
        }
        if self.state == RunState::Running {
            return None;
        }
        match validated {
            Ok(m) => {
                self.buffer = String::new();
                self.state = RunState::Running;
                Some(m)
            },
            Err(msg) => {
                let mut text = self.buffer.clone();
                text.append(msg.as_str());
                self.buffer = text;
                None
            },
        }
    }

    /// Triggers a run of the form as it stands: with a run in flight, nothing
    /// changes and nothing starts. Otherwise the form is serialized after the
    /// program token `program` and the schema's parser validates the tokens;
    /// when it accepts them the buffer is cleared, the dispatcher is running
    /// and the validated arguments are handed back for the worker; when it
    /// refuses them its message is appended to the buffer, which keeps what it
    /// held, and the dispatcher stays idle. Which of the two happens is the
    /// parser's decision on exactly the serialized form.
    pub fn run(&mut self, program: &str) -> (r: Option<clap::ArgMatches>)
        ensures
            old(self).run_state() == RunState::Running ==> r.is_none() && *final(self) == *old(self),
            final(self).run_state() == next_state(
                old(self).run_state(),
                RunEvent::Trigger { valid: r.is_some() },
            ),
            old(self).run_state() == RunState::Idle ==> r.is_some() == accepts(
                old(self).schema(),
                serialized(program@, old(self).descriptors(), old(self).form()),
            ),
            r.is_some() ==> old(self).run_state() == RunState::Idle && final(self).output().len() == 0,
            old(self).run_state() == RunState::Idle && r.is_none() ==> final(self).output() == old(
                self,
            ).output() + refusal_of(
                old(self).schema(),
                serialized(program@, old(self).descriptors(), old(self).form()),
            ),
            final(self).descriptors() == old(self).descriptors(),
            final(self).form() == old(self).form(),
            final(self).info() == old(self).info(),
            final(self).schema() == old(self).schema(),
    {
        proof {
            use_type_invariant(&*self);
        }
        if self.state == RunState::Running {
            return None;
        }
        let tokens = self.get_arg_output(program);
        let validated = try_matches(&self.app, &tokens);
        self.dispatch(validated)
    }

    /// Records a poll of the run in flight, which has `finished` or not: a
    /// finished run returns the dispatcher to idle.
    pub fn update_thread_state(&mut self, finished: bool)
        ensures
            final(self).run_state() == next_state(
                old(self).run_state(),
                RunEvent::Poll { finished },
            ),
            final(self).descriptors() == old(self).descriptors(),
            final(self).form() == old(self).form(),
            final(self).output() == old(self).output(),
            final(self).info() == old(self).info(),
            final(self).schema() == old(self).schema(),
    {
        proof {
            use_type_invariant(&*self);
        }
        if finished {
            self.state = RunState::Idle;
        }
    }

    /// Appends what one drain of the captured streams brought: the standard
    /// output's text `out`, then the standard error's text `err`.
    pub fn update_buffer(&mut self, out: &str, err: &str)
        ensures
            final(self).output() == drained(old(self).output(), out@, err@),
            final(self).descriptors() == old(self).descriptors(),
            final(self).form() == old(self).form(),
            final(self).run_state() == old(self).run_state(),
            final(self).info() == old(self).info(),
            final(self).schema() == old(self).schema(),
    {
        proof {
            use_type_invariant(&*self);
        }
        if out.is_empty() && err.is_empty() {
            proof {
                assert(drained(self.buffer@, out@, err@) =~= self.buffer@);
            }
            return;
        }
        let mut text = self.buffer.clone();
        text.append(out);
        text.append(err);
        self.buffer = text;
    }

    /// Empties the buffer, unless a run is in flight: then nothing changes.
    pub fn clear_buffer(&mut self)
        ensures
            old(self).run_state() == RunState::Idle ==> final(self).output().len() == 0,
            old(self).run_state() == RunState::Running ==> final(self).output() == old(self).output(),
            final(self).descriptors() == old(self).descriptors(),
            final(self).form() == old(self).form(),
            final(self).run_state() == old(self).run_state(),
            final(self).info() == old(self).info(),
            final(self).schema() == old(self).schema(),
    {
        proof {
            use_type_invariant(&*self);
        }
        if self.state == RunState::Idle {
            self.buffer = String::new();
        }
    }

    /// The descriptors of the editable arguments.
    pub fn args(&self) -> (r: &Vec<ArgState>)
        ensures
            r@ == self.descriptors(),
            self.form().len() == self.descriptors().len(),
    {
        proof {
            use_type_invariant(self);
        }
        &self.args
    }

    /// The entry of the `i`-th descriptor.
    pub fn entry(&self, i: usize) -> (r: &FormEntry)
        requires
            i < self.descriptors().len(),
        ensures
            *r == self.form()[i as int],
    {
        proof {
            use_type_invariant(self);
        }
        &self.ui_arg_state[i]
    }

    /// The text of the output buffer.
    pub fn buffer(&self) -> (r: &str)
        ensures
            r@ == self.output(),
    {
        self.buffer.as_str()
    }

    /// What the program says of itself.
    pub fn app_info(&self) -> (r: &AppInfo)
        ensures
            *r == self.info(),
    {
        &self.app_info
    }

    /// Whether a run is in flight.
    pub fn is_running(&self) -> (r: bool)
        ensures
            r == (self.run_state() == RunState::Running),
    {
        self.state == RunState::Running
    }
}

} // verus!
