//! The data model of the task runner: command-line arguments, configuration
//! sections, declared environment entries, task definitions with their
//! platform override fragments, and the metadata records the bootstrap step
//! consumes.

use vstd::prelude::*;

use indexmap::IndexMap;

verus! {

/// The platform family a task runs on; which one applies is decided by the
/// host probe outside this crate and passed in explicitly.
#[derive(Clone, Copy, Debug, PartialEq, Eq)]
pub enum Platform {
    Linux,
    Windows,
    Mac,
}

/// The name of a platform family.
pub open spec fn platform_name(p: Platform) -> Seq<char> {
    match p {
        Platform::Linux => "linux"@,
        Platform::Windows => "windows"@,
        Platform::Mac => "mac"@,
    }
}

/// Returns the name of the given platform family.
pub fn get_platform_name(platform: Platform) -> (r: String)
    ensures
        r@ == platform_name(platform),
{
    match platform {
        Platform::Linux => String::from_str("linux"),
        Platform::Windows => String::from_str("windows"),
        Platform::Mac => String::from_str("mac"),
    }
}

/// A crate to install before a task runs, given with the binary and argument
/// used to test for its presence.
#[derive(Clone, Debug, PartialEq)]
pub struct InstallCrateInfo {
    pub crate_name: String,
    pub binary: String,
    pub test_arg: String,
    pub rustup_component_name: Option<String>,
}

/// A rustup component to install before a task runs.
#[derive(Clone, Debug, PartialEq)]
pub struct InstallRustupComponentInfo {
    pub rustup_component_name: String,
    pub binary: Option<String>,
    pub test_arg: Option<String>,
}

/// What a task installs before it runs.
#[derive(Clone, Debug, PartialEq)]
pub enum InstallCrate {
    Value(String),
    CrateInfo(InstallCrateInfo),
    RustupComponentInfo(InstallRustupComponentInfo),
}

/// A dynamic environment entry: the script whose last non-empty output line
/// becomes the value.
#[derive(Clone, Debug, PartialEq)]
pub struct EnvValueInfo {
    pub script: Vec<String>,
}

/// A declared environment entry: a literal value or a script-derived one.
#[derive(Clone, Debug, PartialEq)]
pub enum EnvValue {
    Value(String),
    Info(EnvValueInfo),
}

/// The condition under which a task runs.
#[derive(Clone, Debug)]
pub struct TaskCondition {
    pub platforms: Option<Vec<String>>,
    pub channels: Option<Vec<String>>,
    pub env_set: Option<Vec<String>>,
    pub env_not_set: Option<Vec<String>>,
    pub env: Option<IndexMap<String, String>>,
    pub rust_version: Option<String>,
}

/// A platform-scoped partial task used to customize a base task for one
/// platform family.  `clear` discards the base task's fields wholesale before
/// this fragment's own fields are applied.
#[derive(Debug)]
pub struct PlatformOverrideTask {
    pub clear: Option<bool>,
    pub install_crate: Option<InstallCrate>,
    pub install_crate_args: Option<Vec<String>>,
    pub command: Option<String>,
    pub disabled: Option<bool>,
    pub private: Option<bool>,
    pub condition: Option<TaskCondition>,
    pub condition_script: Option<Vec<String>>,
    pub force: Option<bool>,
    pub env: Option<IndexMap<String, EnvValue>>,
    pub cwd: Option<String>,
    pub install_script: Option<Vec<String>>,
    pub args: Option<Vec<String>>,
    pub script: Option<Vec<String>>,
    pub script_runner: Option<String>,
    pub script_extension: Option<String>,
    pub run_task: Option<String>,
    pub dependencies: Option<Vec<String>>,
    pub toolchain: Option<String>,
}

/// A named unit of work: execution directive, lifecycle flags, condition,
/// dependencies, scoped environment, aliases and platform override
/// fragments.
#[derive(Debug)]
pub struct Task {
    pub clear: Option<bool>,
    pub install_crate: Option<InstallCrate>,
    pub install_crate_args: Option<Vec<String>>,
    pub command: Option<String>,
    pub disabled: Option<bool>,
    pub private: Option<bool>,
    pub condition: Option<TaskCondition>,
    pub condition_script: Option<Vec<String>>,
    pub description: Option<String>,
    pub category: Option<String>,
    pub workspace: Option<bool>,
    pub force: Option<bool>,
    pub env: Option<IndexMap<String, EnvValue>>,
    pub cwd: Option<String>,
    pub alias: Option<String>,
    pub linux_alias: Option<String>,
    pub windows_alias: Option<String>,
    pub mac_alias: Option<String>,
    pub install_script: Option<Vec<String>>,
    pub args: Option<Vec<String>>,
    pub script: Option<Vec<String>>,
    pub script_runner: Option<String>,
    pub script_extension: Option<String>,
    pub run_task: Option<String>,
    pub dependencies: Option<Vec<String>>,
    pub toolchain: Option<String>,
    pub linux: Option<PlatformOverrideTask>,
    pub windows: Option<PlatformOverrideTask>,
    pub mac: Option<PlatformOverrideTask>,
}

/// The right value when present, else the left.
pub open spec fn opt_or<T>(over: Option<T>, base: Option<T>) -> Option<T> {
    if over is Some {
        over
    } else {
        base
    }
}

/// An override field applied over a base field: the override wins when
/// present; an absent override keeps the base only while `copy` holds.
pub open spec fn pick_spec<T>(over: Option<T>, base: Option<T>, copy: bool) -> Option<T> {
    if over is Some {
        over
    } else if copy {
        base
    } else {
        None
    }
}

fn opt_or_exec<T>(over: Option<T>, base: Option<T>) -> (r: Option<T>)
    ensures
        r == opt_or(over, base),
{
    match over {
        Some(v) => Some(v),
        None => base,
    }
}

fn pick_opt<T>(over: Option<T>, base: Option<T>, copy: bool) -> (r: Option<T>)
    ensures
        r == pick_spec(over, base, copy),
{
    match over {
        Some(v) => Some(v),
        None => if copy {
            base
        } else {
            None
        },
    }
}

/// The extend layer applied over a base task: with `clear` set on the layer
/// the base is discarded wholesale; otherwise every field present in the
/// layer overwrites the base field, and absent fields keep the base's.
pub open spec fn overlay_task(base: Task, ext: Task) -> Task {
    if ext.clear == Some(true) {
        ext
    } else {
        Task {
            clear: opt_or(ext.clear, base.clear),
            install_crate: opt_or(ext.install_crate, base.install_crate),
            install_crate_args: opt_or(ext.install_crate_args, base.install_crate_args),
            command: opt_or(ext.command, base.command),
            disabled: opt_or(ext.disabled, base.disabled),
            private: opt_or(ext.private, base.private),
            condition: opt_or(ext.condition, base.condition),
            condition_script: opt_or(ext.condition_script, base.condition_script),
            description: opt_or(ext.description, base.description),
            category: opt_or(ext.category, base.category),
            workspace: opt_or(ext.workspace, base.workspace),
            force: opt_or(ext.force, base.force),
            env: opt_or(ext.env, base.env),
            cwd: opt_or(ext.cwd, base.cwd),
            alias: opt_or(ext.alias, base.alias),
            linux_alias: opt_or(ext.linux_alias, base.linux_alias),
            windows_alias: opt_or(ext.windows_alias, base.windows_alias),
            mac_alias: opt_or(ext.mac_alias, base.mac_alias),
            install_script: opt_or(ext.install_script, base.install_script),
            args: opt_or(ext.args, base.args),
            script: opt_or(ext.script, base.script),
            script_runner: opt_or(ext.script_runner, base.script_runner),
            script_extension: opt_or(ext.script_extension, base.script_extension),
            run_task: opt_or(ext.run_task, base.run_task),
            dependencies: opt_or(ext.dependencies, base.dependencies),
            toolchain: opt_or(ext.toolchain, base.toolchain),
            linux: opt_or(ext.linux, base.linux),
            windows: opt_or(ext.windows, base.windows),
            mac: opt_or(ext.mac, base.mac),
        }
    }
}

/// The platform override fragment of `t` for platform `p`.
pub open spec fn fragment_of(t: Task, p: Platform) -> Option<PlatformOverrideTask> {
    match p {
        Platform::Linux => t.linux,
        Platform::Windows => t.windows,
        Platform::Mac => t.mac,
    }
}

/// Whether a fragment keeps (rather than clears) the base task's fields.
pub open spec fn fragment_keeps_base(o: PlatformOverrideTask) -> bool {
    o.clear != Some(true)
}

/// A platform override fragment merged onto a base task.  Aliases and the
/// fragment slots are dropped from the result; every other field follows
/// [`pick_spec`] with the fragment's `clear` flag deciding whether base
/// fields survive at all: a clearing fragment starts from an empty task, so
/// even the fields the fragment cannot carry — description, category,
/// workspace and the `clear` flag itself — are discarded with the rest.
pub open spec fn fragment_merge(t: Task, o: PlatformOverrideTask) -> Task {
    let copy = fragment_keeps_base(o);
    Task {
        clear: if copy {
            t.clear
        } else {
            None
        },
        install_crate: pick_spec(o.install_crate, t.install_crate, copy),
        install_crate_args: pick_spec(o.install_crate_args, t.install_crate_args, copy),
        command: pick_spec(o.command, t.command, copy),
        disabled: pick_spec(o.disabled, t.disabled, copy),
        private: pick_spec(o.private, t.private, copy),
        condition: pick_spec(o.condition, t.condition, copy),
        condition_script: pick_spec(o.condition_script, t.condition_script, copy),
        description: if copy {
            t.description
        } else {
            None
        },
        category: if copy {
            t.category
        } else {
            None
        },
        workspace: if copy {
            t.workspace
        } else {
            None
        },
        force: pick_spec(o.force, t.force, copy),
        env: pick_spec(o.env, t.env, copy),
        cwd: pick_spec(o.cwd, t.cwd, copy),
        alias: None,
        linux_alias: None,
        windows_alias: None,
        mac_alias: None,
        install_script: pick_spec(o.install_script, t.install_script, copy),
        args: pick_spec(o.args, t.args, copy),
        script: pick_spec(o.script, t.script, copy),
        script_runner: pick_spec(o.script_runner, t.script_runner, copy),
        script_extension: pick_spec(o.script_extension, t.script_extension, copy),
        run_task: pick_spec(o.run_task, t.run_task, copy),
        dependencies: pick_spec(o.dependencies, t.dependencies, copy),
        toolchain: pick_spec(o.toolchain, t.toolchain, copy),
        linux: None,
        windows: None,
        mac: None,
    }
}

/// A task normalized for platform `p`: its fragment for `p`, if any, merged
/// onto it; a task without a fragment for `p` is left as it is.
pub open spec fn normalized_task_spec(t: Task, p: Platform) -> Task {
    match fragment_of(t, p) {
        None => t,
        Some(o) => fragment_merge(t, o),
    }
}

/// True when at most one of the three execution directives is set.
pub open spec fn task_valid(t: Task) -> bool {
    &&& !(t.run_task is Some && t.command is Some)
    &&& !(t.run_task is Some && t.script is Some)
    &&& !(t.command is Some && t.script is Some)
}

/// The alias that applies on platform `p`: the platform-specific alias when
/// set, else the common alias.
pub open spec fn alias_view(t: Task, p: Platform) -> Option<Seq<char>> {
    let platform_alias = match p {
        Platform::Linux => t.linux_alias,
        Platform::Windows => t.windows_alias,
        Platform::Mac => t.mac_alias,
    };
    match platform_alias {
        Some(s) => Some(s@),
        None => match t.alias {
            Some(s) => Some(s@),
            None => None,
        },
    }
}

/// The view of an optional owned string.
pub open spec fn opt_str_view(o: Option<String>) -> Option<Seq<char>> {
    match o {
        Some(s) => Some(s@),
        None => None,
    }
}

impl Task {
    /// A task with every field unset.
    pub fn new() -> (r: Task)
        ensures
            r == (Task {
                clear: None::<bool>,
                install_crate: None::<InstallCrate>,
                install_crate_args: None::<Vec<String>>,
                command: None::<String>,
                disabled: None::<bool>,
                private: None::<bool>,
                condition: None::<TaskCondition>,
                condition_script: None::<Vec<String>>,
                description: None::<String>,
                category: None::<String>,
                workspace: None::<bool>,
                force: None::<bool>,
                env: None::<IndexMap<String, EnvValue>>,
                cwd: None::<String>,
                alias: None::<String>,
                linux_alias: None::<String>,
                windows_alias: None::<String>,
                mac_alias: None::<String>,
                install_script: None::<Vec<String>>,
                args: None::<Vec<String>>,
                script: None::<Vec<String>>,
                script_runner: None::<String>,
                script_extension: None::<String>,
                run_task: None::<String>,
                dependencies: None::<Vec<String>>,
                toolchain: None::<String>,
                linux: None::<PlatformOverrideTask>,
                windows: None::<PlatformOverrideTask>,
                mac: None::<PlatformOverrideTask>,
            }),
    {
        Task {
            clear: None,
            install_crate: None,
            install_crate_args: None,
            command: None,
            disabled: None,
            private: None,
            condition: None,
            condition_script: None,
            description: None,
            category: None,
            workspace: None,
            force: None,
            env: None,
            cwd: None,
            alias: None,
            linux_alias: None,
            windows_alias: None,
            mac_alias: None,
            install_script: None,
            args: None,
            script: None,
            script_runner: None,
            script_extension: None,
            run_task: None,
            dependencies: None,
            toolchain: None,
            linux: None,
            windows: None,
            mac: None,
        }
    }

    /// True when the task is marked to always run.
    pub fn is_force(&self) -> (r: bool)
        ensures
            r == (self.force == Some(true)),
    {
        match self.force {
            Some(b) => b,
            None => false,
        }
    }

    /// True when at most one of run_task, command and script is set.
    pub fn is_valid(&self) -> (r: bool)
        ensures
            r == task_valid(*self),
    {
        if self.run_task.is_some() && self.command.is_some() {
            false
        } else if self.run_task.is_some() && self.script.is_some() {
            false
        } else if self.command.is_some() && self.script.is_some() {
            false
        } else {
            true
        }
    }

    /// Applies `extended` as an extend layer over the receiving task: with
    /// `clear` set on the layer the whole receiver is replaced, otherwise
    /// fields present in the layer overwrite the receiver's field by field.
    pub fn extend(&mut self, extended: Task)
        ensures
            *final(self) == overlay_task(*old(self), extended),
    {
        if matches!(extended.clear, Some(true)) {
            *self = extended;
            return ;
        }
        let mut base = Task::new();
        core::mem::swap(self, &mut base);
        *self = Task {
            clear: opt_or_exec(extended.clear, base.clear),
            install_crate: opt_or_exec(extended.install_crate, base.install_crate),
            install_crate_args: opt_or_exec(extended.install_crate_args, base.install_crate_args),
            command: opt_or_exec(extended.command, base.command),
            disabled: opt_or_exec(extended.disabled, base.disabled),
            private: opt_or_exec(extended.private, base.private),
            condition: opt_or_exec(extended.condition, base.condition),
            condition_script: opt_or_exec(extended.condition_script, base.condition_script),
            description: opt_or_exec(extended.description, base.description),
            category: opt_or_exec(extended.category, base.category),
            workspace: opt_or_exec(extended.workspace, base.workspace),
            force: opt_or_exec(extended.force, base.force),
            env: opt_or_exec(extended.env, base.env),
            cwd: opt_or_exec(extended.cwd, base.cwd),
            alias: opt_or_exec(extended.alias, base.alias),
            linux_alias: opt_or_exec(extended.linux_alias, base.linux_alias),
            windows_alias: opt_or_exec(extended.windows_alias, base.windows_alias),
            mac_alias: opt_or_exec(extended.mac_alias, base.mac_alias),
            install_script: opt_or_exec(extended.install_script, base.install_script),
            args: opt_or_exec(extended.args, base.args),
            script: opt_or_exec(extended.script, base.script),
            script_runner: opt_or_exec(extended.script_runner, base.script_runner),
            script_extension: opt_or_exec(extended.script_extension, base.script_extension),
            run_task: opt_or_exec(extended.run_task, base.run_task),
            dependencies: opt_or_exec(extended.dependencies, base.dependencies),
            toolchain: opt_or_exec(extended.toolchain, base.toolchain),
            linux: opt_or_exec(extended.linux, base.linux),
            windows: opt_or_exec(extended.windows, base.windows),
            mac: opt_or_exec(extended.mac, base.mac),
        };
    }

    /// The alias that applies on platform `p`, if any.
    pub fn get_alias(&self, platform: Platform) -> (r: Option<String>)
        ensures
            opt_str_view(r) == alias_view(*self, platform),
    {
        let chosen: &Option<String> = match platform {
            Platform::Linux => &self.linux_alias,
            Platform::Windows => &self.windows_alias,
            Platform::Mac => &self.mac_alias,
        };
        match chosen {
            Some(s) => Some(s.clone()),
            None => match &self.alias {
                Some(s) => Some(s.clone()),
                None => None,
            },
        }
    }

    /// Merges the receiving task with its override fragment for platform
    /// `platform`, if it has one, producing a single flattened task without
    /// alias fields or fragment slots.
    pub fn get_normalized_task(self, platform: Platform) -> (r: Task)
        ensures
            r == normalized_task_spec(self, platform),
    {
        let mut this = self;
        let frag: Option<PlatformOverrideTask>;
        match platform {
            Platform::Linux => {
                frag = this.linux;
                this.linux = None;
            },
            Platform::Windows => {
                frag = this.windows;
                this.windows = None;
            },
            Platform::Mac => {
                frag = this.mac;
                this.mac = None;
            },
        }
        match frag {
            None => this,
            Some(o) => apply_fragment(this, o),
        }
    }
}

/// Merges `o` onto `t` following the fragment precedence rules.
fn apply_fragment(t: Task, o: PlatformOverrideTask) -> (r: Task)
    ensures
        r == fragment_merge(t, o),
{
    let copy = match o.clear {
        Some(c) => !c,
        None => true,
    };
    Task {
        clear: if copy {
            t.clear
        } else {
            None
        },
        install_crate: pick_opt(o.install_crate, t.install_crate, copy),
        install_crate_args: pick_opt(o.install_crate_args, t.install_crate_args, copy),
        command: pick_opt(o.command, t.command, copy),
        disabled: pick_opt(o.disabled, t.disabled, copy),
        private: pick_opt(o.private, t.private, copy),
        condition: pick_opt(o.condition, t.condition, copy),
        condition_script: pick_opt(o.condition_script, t.condition_script, copy),
        description: if copy {
            t.description
        } else {
            None
        },
        category: if copy {
            t.category
        } else {
            None
        },
        workspace: if copy {
            t.workspace
        } else {
            None
        },
        force: pick_opt(o.force, t.force, copy),
        env: pick_opt(o.env, t.env, copy),
        cwd: pick_opt(o.cwd, t.cwd, copy),
        alias: None,
        linux_alias: None,
        windows_alias: None,
        mac_alias: None,
        install_script: pick_opt(o.install_script, t.install_script, copy),
        args: pick_opt(o.args, t.args, copy),
        script: pick_opt(o.script, t.script, copy),
        script_runner: pick_opt(o.script_runner, t.script_runner, copy),
        script_extension: pick_opt(o.script_extension, t.script_extension, copy),
        run_task: pick_opt(o.run_task, t.run_task, copy),
        dependencies: pick_opt(o.dependencies, t.dependencies, copy),
        toolchain: pick_opt(o.toolchain, t.toolchain, copy),
        linux: None,
        windows: None,
        mac: None,
    }
}

/// The clearing law of override merging: when a fragment carries a set
/// `clear` flag, the merge starts from an empty task, so every
/// fragment-covered field of the normalized task is the fragment's own and
/// every other field — the base's description, category, workspace and
/// `clear` flag included, along with the alias fields and fragment slots —
/// is absent.
pub proof fn lemma_override_clear_discards_base(base: Task, o: PlatformOverrideTask, p: Platform)
    requires
        fragment_of(base, p) == Some(o),
        o.clear == Some(true),
    ensures
        normalized_task_spec(base, p).install_crate == o.install_crate,
        normalized_task_spec(base, p).install_crate_args == o.install_crate_args,
        normalized_task_spec(base, p).command == o.command,
        normalized_task_spec(base, p).disabled == o.disabled,
        normalized_task_spec(base, p).private == o.private,
        normalized_task_spec(base, p).condition == o.condition,
        normalized_task_spec(base, p).condition_script == o.condition_script,
        normalized_task_spec(base, p).force == o.force,
        normalized_task_spec(base, p).env == o.env,
        normalized_task_spec(base, p).cwd == o.cwd,
        normalized_task_spec(base, p).install_script == o.install_script,
        normalized_task_spec(base, p).args == o.args,
        normalized_task_spec(base, p).script == o.script,
        normalized_task_spec(base, p).script_runner == o.script_runner,
        normalized_task_spec(base, p).script_extension == o.script_extension,
        normalized_task_spec(base, p).run_task == o.run_task,
        normalized_task_spec(base, p).dependencies == o.dependencies,
        normalized_task_spec(base, p).toolchain == o.toolchain,
        (normalized_task_spec(base, p).clear is None),
        (normalized_task_spec(base, p).description is None),
        (normalized_task_spec(base, p).category is None),
        (normalized_task_spec(base, p).workspace is None),
        (normalized_task_spec(base, p).alias is None),
        (normalized_task_spec(base, p).linux_alias is None),
        (normalized_task_spec(base, p).windows_alias is None),
        (normalized_task_spec(base, p).mac_alias is None),
        (normalized_task_spec(base, p).linux is None),
        (normalized_task_spec(base, p).windows is None),
        (normalized_task_spec(base, p).mac is None),
{
}

/// The non-clearing law of override merging: when a fragment's `clear` flag
/// is absent or false, each fragment-covered field of the normalized task is
/// the fragment's where the fragment sets it and the base's where it does
/// not; the fields outside the fragment's field set pass through from the
/// base, and the alias fields and fragment slots are dropped.
pub proof fn lemma_override_keeps_base(base: Task, o: PlatformOverrideTask, p: Platform)
    requires
        fragment_of(base, p) == Some(o),
        o.clear != Some(true),
    ensures
        normalized_task_spec(base, p).install_crate == opt_or(o.install_crate, base.install_crate),
        normalized_task_spec(base, p).install_crate_args == opt_or(
            o.install_crate_args,
            base.install_crate_args,
        ),
        normalized_task_spec(base, p).command == opt_or(o.command, base.command),
        normalized_task_spec(base, p).disabled == opt_or(o.disabled, base.disabled),
        normalized_task_spec(base, p).private == opt_or(o.private, base.private),
        normalized_task_spec(base, p).condition == opt_or(o.condition, base.condition),
        normalized_task_spec(base, p).condition_script == opt_or(
            o.condition_script,
            base.condition_script,
        ),
        normalized_task_spec(base, p).force == opt_or(o.force, base.force),
        normalized_task_spec(base, p).env == opt_or(o.env, base.env),
        normalized_task_spec(base, p).cwd == opt_or(o.cwd, base.cwd),
        normalized_task_spec(base, p).install_script == opt_or(
            o.install_script,
            base.install_script,
        ),
        normalized_task_spec(base, p).args == opt_or(o.args, base.args),
        normalized_task_spec(base, p).script == opt_or(o.script, base.script),
        normalized_task_spec(base, p).script_runner == opt_or(o.script_runner, base.script_runner),
        normalized_task_spec(base, p).script_extension == opt_or(
            o.script_extension,
            base.script_extension,
        ),
        normalized_task_spec(base, p).run_task == opt_or(o.run_task, base.run_task),
        normalized_task_spec(base, p).dependencies == opt_or(o.dependencies, base.dependencies),
        normalized_task_spec(base, p).toolchain == opt_or(o.toolchain, base.toolchain),
        normalized_task_spec(base, p).clear == base.clear,
        normalized_task_spec(base, p).description == base.description,
        normalized_task_spec(base, p).category == base.category,
        normalized_task_spec(base, p).workspace == base.workspace,
        (normalized_task_spec(base, p).alias is None),
        (normalized_task_spec(base, p).linux_alias is None),
        (normalized_task_spec(base, p).windows_alias is None),
        (normalized_task_spec(base, p).mac_alias is None),
        (normalized_task_spec(base, p).linux is None),
        (normalized_task_spec(base, p).windows is None),
        (normalized_task_spec(base, p).mac is None),
{
}

/// The precedence law of the extend layer over a platform override: with the
/// override fragment setting the command, the extend layer's command wins
/// when it sets one, and the override's survives when the extend layer — not
/// itself clearing — leaves the command unset.
pub proof fn lemma_extend_over_override(
    base: Task,
    o: PlatformOverrideTask,
    p: Platform,
    donor: Task,
)
    requires
        fragment_of(base, p) == Some(o),
        o.command is Some,
    ensures
        donor.command is Some ==> overlay_task(normalized_task_spec(base, p), donor).command
            == donor.command,
        (donor.command is None && donor.clear != Some(true)) ==> overlay_task(
            normalized_task_spec(base, p),
            donor,
        ).command == o.command,
{
}

/// One step of an execution plan: a named, already-normalized task.
#[derive(Debug)]
pub struct Step {
    pub name: String,
    pub config: Task,
}

/// The configuration section controlling the run as a whole.
#[derive(Clone, Debug)]
pub struct ConfigSection {
    pub skip_core_tasks: Option<bool>,
    pub init_task: Option<String>,
    pub end_task: Option<String>,
    pub on_error_task: Option<String>,
    pub load_script: Option<Vec<String>>,
    pub linux_load_script: Option<Vec<String>>,
    pub windows_load_script: Option<Vec<String>>,
    pub mac_load_script: Option<Vec<String>>,
}

/// A config section overlaid field by field by an extending section.
pub open spec fn overlay_config_section(base: ConfigSection, ext: ConfigSection) -> ConfigSection {
    ConfigSection {
        skip_core_tasks: opt_or(ext.skip_core_tasks, base.skip_core_tasks),
        init_task: opt_or(ext.init_task, base.init_task),
        end_task: opt_or(ext.end_task, base.end_task),
        on_error_task: opt_or(ext.on_error_task, base.on_error_task),
        load_script: opt_or(ext.load_script, base.load_script),
        linux_load_script: opt_or(ext.linux_load_script, base.linux_load_script),
        windows_load_script: opt_or(ext.windows_load_script, base.windows_load_script),
        mac_load_script: opt_or(ext.mac_load_script, base.mac_load_script),
    }
}

/// The load script that applies on platform `p`: the platform-specific one
/// when set, else the common one.
pub open spec fn load_script_of(c: ConfigSection, p: Platform) -> Option<Vec<String>> {
    let platform_script = match p {
        Platform::Linux => c.linux_load_script,
        Platform::Windows => c.windows_load_script,
        Platform::Mac => c.mac_load_script,
    };
    match platform_script {
        Some(s) => Some(s),
        None => c.load_script,
    }
}

impl ConfigSection {
    /// A config section with every field unset.
    pub fn new() -> (r: ConfigSection)
        ensures
            r == (ConfigSection {
                skip_core_tasks: None::<bool>,
                init_task: None::<String>,
                end_task: None::<String>,
                on_error_task: None::<String>,
                load_script: None::<Vec<String>>,
                linux_load_script: None::<Vec<String>>,
                windows_load_script: None::<Vec<String>>,
                mac_load_script: None::<Vec<String>>,
            }),
    {
        ConfigSection {
            skip_core_tasks: None,
            init_task: None,
            end_task: None,
            on_error_task: None,
            load_script: None,
            linux_load_script: None,
            windows_load_script: None,
            mac_load_script: None,
        }
    }

    /// Applies `extended` over this section: fields present in the extending
    /// section win, absent fields keep this section's values.
    pub fn extend(&mut self, extended: ConfigSection)
        ensures
            *final(self) == overlay_config_section(*old(self), extended),
    {
        if extended.skip_core_tasks.is_some() {
            self.skip_core_tasks = extended.skip_core_tasks;
        }
        if extended.init_task.is_some() {
            self.init_task = extended.init_task;
        }
        if extended.end_task.is_some() {
            self.end_task = extended.end_task;
        }
        if extended.on_error_task.is_some() {
            self.on_error_task = extended.on_error_task;
        }
        if extended.load_script.is_some() {
            self.load_script = extended.load_script;
        }
        if extended.linux_load_script.is_some() {
            self.linux_load_script = extended.linux_load_script;
        }
        if extended.windows_load_script.is_some() {
            self.windows_load_script = extended.windows_load_script;
        }
        if extended.mac_load_script.is_some() {
            self.mac_load_script = extended.mac_load_script;
        }
    }

    /// The load script that applies on platform `platform`, if any.
    pub fn get_load_script(&self, platform: Platform) -> (r: Option<&Vec<String>>)
        ensures
            match r {
                Some(v) => load_script_of(*self, platform) == Some(*v),
                None => load_script_of(*self, platform) is None,
            },
    {
        let platform_script: &Option<Vec<String>> = match platform {
            Platform::Linux => &self.linux_load_script,
            Platform::Windows => &self.windows_load_script,
            Platform::Mac => &self.mac_load_script,
        };
        match platform_script {
            Some(s) => Some(s),
            None => match &self.load_script {
                Some(s) => Some(s),
                None => None,
            },
        }
    }
}

/// A fully loaded configuration: the control section, the declared
/// environment entries in declaration order, and the task table.
#[derive(Debug)]
pub struct Config {
    pub config: ConfigSection,
    pub env: IndexMap<String, EnvValue>,
    pub tasks: IndexMap<String, Task>,
}

/// A configuration as read from one descriptor file, before merging.
#[derive(Debug)]
pub struct ExternalConfig {
    pub extend: Option<String>,
    pub config: Option<ConfigSection>,
    pub env: Option<IndexMap<String, EnvValue>>,
    pub tasks: Option<IndexMap<String, Task>>,
}

impl ExternalConfig {
    /// An external config with every part unset.
    pub fn new() -> (r: ExternalConfig)
        ensures
            (r.extend is None),
            (r.config is None),
            (r.env is None),
            (r.tasks is None),
    {
        ExternalConfig { extend: None, config: None, env: None, tasks: None }
    }
}

/// The command-line arguments of a run.
#[derive(Clone, Debug)]
pub struct CliArgs {
    pub command: String,
    pub build_file: String,
    pub task: String,
    pub log_level: String,
    pub cwd: Option<String>,
    pub env: Option<Vec<String>>,
    pub env_file: Option<String>,
    pub disable_workspace: bool,
    pub disable_on_error: bool,
    pub disable_check_for_updates: bool,
    pub print_only: bool,
    pub list_all_steps: bool,
    pub experimental: bool,
    pub arguments: Option<Vec<String>>,
}

impl CliArgs {
    /// The default command-line arguments.
    pub fn new() -> (r: CliArgs)
        ensures
            r.command@ == Seq::<char>::empty(),
            r.build_file@ == "Makefile.toml"@,
            r.task@ == "default"@,
            r.log_level@ == "info"@,
            (r.cwd is None),
            (r.env is None),
            (r.env_file is None),
            !r.disable_workspace,
            !r.disable_on_error,
            !r.disable_check_for_updates,
            !r.print_only,
            !r.list_all_steps,
            !r.experimental,
            (r.arguments is None),
    {
        CliArgs {
            command: String::new(),
            build_file: String::from_str("Makefile.toml"),
            task: String::from_str("default"),
            log_level: String::from_str("info"),
            cwd: None,
            env: None,
            env_file: None,
            disable_workspace: false,
            disable_on_error: false,
            disable_check_for_updates: false,
            print_only: false,
            list_all_steps: false,
            experimental: false,
            arguments: None,
        }
    }
}

/// The user-level persistent configuration.
#[derive(Clone, Debug)]
pub struct GlobalConfig {
    pub file_name: Option<String>,
    pub log_level: Option<String>,
    pub default_task_name: Option<String>,
    pub update_check_minimum_interval: Option<String>,
    pub search_project_root: Option<bool>,
}

impl GlobalConfig {
    /// The default user-level configuration: searching for the project root
    /// is off.
    pub fn new() -> (r: GlobalConfig)
        ensures
            (r.file_name is None),
            (r.log_level is None),
            (r.default_task_name is None),
            (r.update_check_minimum_interval is None),
            r.search_project_root == Some(false),
    {
        GlobalConfig {
            file_name: None,
            log_level: None,
            default_task_name: None,
            update_check_minimum_interval: None,
            search_project_root: Some(false),
        }
    }
}

/// The persistent cache record.
#[derive(Clone, Debug)]
pub struct Cache {
    pub file_name: Option<String>,
    pub last_update_check: Option<u64>,
}

impl Cache {
    /// An empty cache record.
    pub fn new() -> (r: Cache)
        ensures
            (r.file_name is None),
            (r.last_update_check is None),
    {
        Cache { file_name: None, last_update_check: None }
    }
}

/// The workspace of the current crate, if it is a member of one.
#[derive(Clone, Debug)]
pub struct Workspace {
    pub members: Option<Vec<String>>,
}

impl Workspace {
    /// A workspace record with no members.
    pub fn new() -> (r: Workspace)
        ensures
            (r.members is None),
    {
        Workspace { members: None }
    }
}

/// The package table of the current crate's manifest.
#[derive(Clone, Debug)]
pub struct PackageInfo {
    pub name: Option<String>,
    pub version: Option<String>,
    pub description: Option<String>,
    pub license: Option<String>,
    pub documentation: Option<String>,
    pub homepage: Option<String>,
    pub repository: Option<String>,
}

impl PackageInfo {
    /// A package record with every field unset.
    pub fn new() -> (r: PackageInfo)
        ensures
            (r.name is None),
            (r.version is None),
            (r.description is None),
            (r.license is None),
            (r.documentation is None),
            (r.homepage is None),
            (r.repository is None),
    {
        PackageInfo {
            name: None,
            version: None,
            description: None,
            license: None,
            documentation: None,
            homepage: None,
            repository: None,
        }
    }
}

/// What the crate probe reports of the current crate: its package table,
/// workspace membership and dependency names.
#[derive(Clone, Debug)]
pub struct CrateInfo {
    pub package: Option<PackageInfo>,
    pub workspace: Option<Workspace>,
    pub dependencies: Option<Vec<String>>,
}

impl CrateInfo {
    /// A crate record with every field unset.
    pub fn new() -> (r: CrateInfo)
        ensures
            (r.package is None),
            (r.workspace is None),
            (r.dependencies is None),
    {
        CrateInfo { package: None, workspace: None, dependencies: None }
    }
}

/// What the version-control probe reports of the working copy.
#[derive(Clone, Debug)]
pub struct GitInfo {
    pub branch: Option<String>,
    pub user_name: Option<String>,
    pub user_email: Option<String>,
}

impl GitInfo {
    /// A version-control record with every field unset.
    pub fn new() -> (r: GitInfo)
        ensures
            (r.branch is None),
            (r.user_name is None),
            (r.user_email is None),
    {
        GitInfo { branch: None, user_name: None, user_email: None }
    }
}

/// A release channel of the toolchain.
#[derive(Clone, Copy, Debug, PartialEq, Eq)]
pub enum RustChannel {
    Stable,
    Beta,
    Nightly,
}

/// What the toolchain probe reports: version, channel and target triple
/// components, all as plain optional strings.
#[derive(Clone, Debug)]
pub struct RustInfo {
    pub version: Option<String>,
    pub channel: Option<RustChannel>,
    pub target_arch: Option<String>,
    pub target_env: Option<String>,
    pub target_os: Option<String>,
    pub target_pointer_width: Option<String>,
    pub target_vendor: Option<String>,
}

impl RustInfo {
    /// A toolchain record with every field unset.
    pub fn new() -> (r: RustInfo)
        ensures
            (r.version is None),
            (r.channel is None),
            (r.target_arch is None),
            (r.target_env is None),
            (r.target_os is None),
            (r.target_pointer_width is None),
            (r.target_vendor is None),
    {
        RustInfo {
            version: None,
            channel: None,
            target_arch: None,
            target_env: None,
            target_os: None,
            target_pointer_width: None,
            target_vendor: None,
        }
    }
}

/// The metadata gathered while bootstrapping the environment.
#[derive(Clone, Debug)]
pub struct EnvInfo {
    pub rust_info: RustInfo,
    pub crate_info: CrateInfo,
    pub git_info: GitInfo,
}

/// What the command-execution collaborator reports of one script run: the
/// exit code and the captured standard output.
#[derive(Clone, Debug)]
pub struct ScriptOutput {
    pub exit_code: i32,
    pub stdout: String,
}

} // verus!
