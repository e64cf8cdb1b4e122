//! The ledger of discovered declarations: where each came from, its boundary
//! functions, and how each compiled in each checked environment.
use vstd::prelude::*;
use crate::cpp_data::{CppItemData, same_declaration};
use crate::cpp_ffi_data::CppAndFfiMethod;
use crate::text::{escape_html, escape_html_spec, owned};

verus! {

/// A processor architecture.
#[derive(Clone, Copy, Debug, PartialEq, Eq, Structural)]
pub enum Arch {
    X86,
    X86_64,
    Mips,
    PowerPC,
    PowerPC64,
    Arm,
    AArch64,
}

/// An operating system.
#[derive(Clone, Copy, Debug, PartialEq, Eq, Structural)]
pub enum OS {
    Windows,
    MacOS,
    IOS,
    Linux,
    Android,
    FreeBSD,
    DragonFly,
    Bitrig,
    OpenBSD,
    NetBSD,
}

/// A family of operating systems.
#[derive(Clone, Copy, Debug, PartialEq, Eq, Structural)]
pub enum Family {
    Windows,
    Unix,
}

/// A toolchain environment.
#[derive(Clone, Copy, Debug, PartialEq, Eq, Structural)]
pub enum Env {
    Gnu,
    Msvc,
    Unspecified,
}

/// A target platform.
#[derive(Clone, Copy, Debug, PartialEq, Eq, Structural)]
pub struct Target {
    pub arch: Arch,
    pub os: OS,
    pub family: Family,
    pub env: Env,
}

/// The name of an architecture.
pub open spec fn arch_name(a: Arch) -> Seq<char> {
    match a {
        Arch::X86 => "X86"@,
        Arch::X86_64 => "X86_64"@,
        Arch::Mips => "Mips"@,
        Arch::PowerPC => "PowerPC"@,
        Arch::PowerPC64 => "PowerPC64"@,
        Arch::Arm => "Arm"@,
        Arch::AArch64 => "AArch64"@,
    }
}

/// The name of an operating system.
pub open spec fn os_name(o: OS) -> Seq<char> {
    match o {
        OS::Windows => "Windows"@,
        OS::MacOS => "MacOS"@,
        OS::IOS => "IOS"@,
        OS::Linux => "Linux"@,
        OS::Android => "Android"@,
        OS::FreeBSD => "FreeBSD"@,
        OS::DragonFly => "DragonFly"@,
        OS::Bitrig => "Bitrig"@,
        OS::OpenBSD => "OpenBSD"@,
        OS::NetBSD => "NetBSD"@,
    }
}

/// The name of a family of operating systems.
pub open spec fn family_name(f: Family) -> Seq<char> {
    match f {
        Family::Windows => "Windows"@,
        Family::Unix => "Unix"@,
    }
}

/// The name of a toolchain environment.
pub open spec fn env_name(e: Env) -> Seq<char> {
    match e {
        Env::Gnu => "Gnu"@,
        Env::Msvc => "Msvc"@,
        Env::Unspecified => "Unspecified"@,
    }
}

impl Arch {
    /// The name of this architecture.
    pub fn name(&self) -> (r: &'static str)
        ensures
            r@ == arch_name(*self),
    {
        match self {
            Arch::X86 => "X86",
            Arch::X86_64 => "X86_64",
            Arch::Mips => "Mips",
            Arch::PowerPC => "PowerPC",
            Arch::PowerPC64 => "PowerPC64",
            Arch::Arm => "Arm",
            Arch::AArch64 => "AArch64",
        }
    }
}

impl OS {
    /// The name of this operating system.
    pub fn name(&self) -> (r: &'static str)
        ensures
            r@ == os_name(*self),
    {
        match self {
            OS::Windows => "Windows",
            OS::MacOS => "MacOS",
            OS::IOS => "IOS",
            OS::Linux => "Linux",
            OS::Android => "Android",
            OS::FreeBSD => "FreeBSD",
            OS::DragonFly => "DragonFly",
            OS::Bitrig => "Bitrig",
            OS::OpenBSD => "OpenBSD",
            OS::NetBSD => "NetBSD",
        }
    }
}

impl Family {
    /// The name of this family.
    pub fn name(&self) -> (r: &'static str)
        ensures
            r@ == family_name(*self),
    {
        match self {
            Family::Windows => "Windows",
            Family::Unix => "Unix",
        }
    }
}

impl Env {
    /// The name of this environment.
    pub fn name(&self) -> (r: &'static str)
        ensures
            r@ == env_name(*self),
    {
        match self {
            Env::Gnu => "Gnu",
            Env::Msvc => "Msvc",
            Env::Unspecified => "Unspecified",
        }
    }
}

/// The view of an optional string.
pub open spec fn opt_view(s: Option<String>) -> Option<Seq<char>> {
    match s {
        Some(x) => Some(x@),
        None => None,
    }
}

/// A copy of an optional string.
fn clone_opt_string(s: &Option<String>) -> (r: Option<String>)
    ensures
        opt_view(r) == opt_view(*s),
{
    match s {
        Some(x) => Some(x.clone()),
        None => None,
    }
}

/// The two optional strings are equal.
fn opt_strings_equal(a: &Option<String>, b: &Option<String>) -> (r: bool)
    ensures
        r == (opt_view(*a) == opt_view(*b)),
{
    match (a, b) {
        (Some(x), Some(y)) => *x == *y,
        (None, None) => true,
        _ => false,
    }
}

/// One build configuration that declarations are checked in.
#[derive(Debug)]
pub struct CppCheckerEnv {
    pub target: Target,
    pub cpp_library_version: Option<String>,
}

/// The mathematical value of a `CppCheckerEnv`.
pub struct CheckerEnvModel {
    pub target: Target,
    pub cpp_library_version: Option<Seq<char>>,
}

impl CppCheckerEnv {
    pub open spec fn view(self) -> CheckerEnvModel {
        CheckerEnvModel { target: self.target, cpp_library_version: opt_view(self.cpp_library_version) }
    }

    /// This is the same environment as `other`: all fields are equal.
    pub fn same_as(&self, other: &CppCheckerEnv) -> (r: bool)
        ensures
            r == (self.view() == other.view()),
    {
        self.target == other.target && opt_strings_equal(
            &self.cpp_library_version,
            &other.cpp_library_version,
        )
    }

    /// A short label: the library version (or `None`), a slash, and the
    /// names of the target's parts joined by `-`.
    pub fn short_text(&self) -> (r: String)
        ensures
            r@ == short_text_spec(self.view()),
    {
        let mut r = match &self.cpp_library_version {
            Some(v) => v.clone(),
            None => owned("None"),
        };
        r.append("/");
        r.append(self.target.arch.name());
        r.append("-");
        r.append(self.target.os.name());
        r.append("-");
        r.append(self.target.family.name());
        r.append("-");
        r.append(self.target.env.name());
        r
    }
}

/// The short label of an environment.
pub open spec fn short_text_spec(e: CheckerEnvModel) -> Seq<char> {
    (match e.cpp_library_version {
        Some(v) => v,
        None => "None"@,
    }) + "/"@ + arch_name(e.target.arch) + "-"@ + os_name(e.target.os) + "-"@ + family_name(
        e.target.family,
    ) + "-"@ + env_name(e.target.env)
}

impl Clone for CppCheckerEnv {
    fn clone(&self) -> (r: Self)
        ensures
            r.view() == self.view(),
    {
        CppCheckerEnv {
            target: self.target,
            cpp_library_version: clone_opt_string(&self.cpp_library_version),
        }
    }
}

/// Where in a source file a declaration was found.
#[derive(Debug)]
pub struct CppOriginLocation {
    pub include_file_path: String,
    pub line: u32,
    pub column: u32,
}

/// Where a declaration came from.
#[derive(Debug)]
pub enum DatabaseItemSource {
    /// The parser found it; this source outranks all others.
    CppParser {
        /// File name of the include file, without its path.
        include_file: String,
        /// Exact location of the declaration.
        origin_location: CppOriginLocation,
    },
    ImplicitDestructor,
    TemplateInstantiation,
    NamespaceInfering,
    QtSignalArguments,
}

impl DatabaseItemSource {
    /// This source is the parser.
    pub fn is_parser(&self) -> (r: bool)
        ensures
            r == (*self is CppParser),
    {
        match self {
            DatabaseItemSource::CppParser { .. } => true,
            _ => false,
        }
    }
}

/// The outcome of checking a declaration in one environment.
#[derive(Debug)]
pub struct CppCheckerInfo {
    pub env: CppCheckerEnv,
    /// The compiler's message, or nothing when it compiled.
    pub error: Option<String>,
}

/// The mathematical value of a `CppCheckerInfo`.
pub struct CheckerInfoModel {
    pub env: CheckerEnvModel,
    pub error: Option<Seq<char>>,
}

/// The HTML that reports a check's outcome.
pub open spec fn error_log_spec(error: Option<Seq<char>>) -> Seq<char> {
    match error {
        None => "<div class='ok'>OK</div>"@,
        Some(e) => "<div class='error'>Error<br><pre>"@ + escape_html_spec(e) + "</pre></div>"@,
    }
}

impl CppCheckerInfo {
    pub open spec fn view(self) -> CheckerInfoModel {
        CheckerInfoModel { env: self.env.view(), error: opt_view(self.error) }
    }

    /// The HTML that reports the outcome `error`.
    pub fn error_to_log(error: &Option<String>) -> (r: String)
        ensures
            r@ == error_log_spec(opt_view(*error)),
    {
        match error {
            None => owned("<div class='ok'>OK</div>"),
            Some(error) => {
                let mut r = owned("<div class='error'>Error<br><pre>");
                let escaped = escape_html(error.as_str());
                r.append(escaped.as_str());
                r.append("</pre></div>");
                r
            },
        }
    }
}

/// What recording a check's outcome did.
#[derive(Debug)]
pub enum CppCheckerAddResult {
    /// The environment had no outcome yet.
    Added,
    /// The outcome differs from the one recorded before, given here.
    Changed { old: Option<String> },
    /// The outcome is the one recorded before.
    Unchanged,
}

/// The outcomes of checks, one per environment.
#[derive(Debug)]
pub struct CppCheckerInfoList {
    pub items: Vec<CppCheckerInfo>,
}

/// The models of a list of outcomes.
pub open spec fn infos_view(items: Seq<CppCheckerInfo>) -> Seq<CheckerInfoModel> {
    Seq::new(items.len(), |i: int| items[i].view())
}

/// The position of the first outcome for `env`, if there is one.
pub open spec fn env_position(items: Seq<CheckerInfoModel>, env: CheckerEnvModel) -> Option<int>
    decreases items.len(),
{
    if items.len() == 0 {
        None
    } else {
        match env_position(items.drop_last(), env) {
            Some(i) => Some(i),
            None => if items.last().env == env {
                Some(items.len() - 1)
            } else {
                None
            },
        }
    }
}

/// Facts about the first position of an environment.
pub proof fn lemma_env_position(items: Seq<CheckerInfoModel>, env: CheckerEnvModel)
    ensures
        match env_position(items, env) {
            Some(i) => 0 <= i < items.len() && items[i].env == env && forall|j: int|
                0 <= j < i ==> (#[trigger] items[j]).env != env,
            None => forall|j: int| 0 <= j < items.len() ==> (#[trigger] items[j]).env != env,
        },
    decreases items.len(),
{
    if items.len() > 0 {
        lemma_env_position(items.drop_last(), env);
        let prev = items.drop_last();
        assert forall|j: int| 0 <= j < prev.len() implies prev[j] == items[j] by {}
    }
}

/// No environment has two outcomes.
pub open spec fn envs_unique(items: Seq<CheckerInfoModel>) -> bool {
    forall|i: int, j: int| 0 <= i < items.len() && 0 <= j < items.len() && i != j ==> items[i].env != items[j].env
}

/// The models of an add result.
pub open spec fn add_result_view(r: CppCheckerAddResult) -> Option<Option<Option<Seq<char>>>> {
    match r {
        CppCheckerAddResult::Added => None,
        CppCheckerAddResult::Changed { old } => Some(Some(opt_view(old))),
        CppCheckerAddResult::Unchanged => Some(None),
    }
}

impl CppCheckerInfoList {
    pub open spec fn view(self) -> Seq<CheckerInfoModel> {
        infos_view(self.items@)
    }

    /// No environment has two outcomes.
    pub open spec fn wf(self) -> bool {
        envs_unique(self.view())
    }

    /// An empty list.
    pub fn new() -> (r: CppCheckerInfoList)
        ensures
            r.view() == Seq::<CheckerInfoModel>::empty(),
    {
        let r = CppCheckerInfoList { items: Vec::new() };
        proof {
            assert(r.view() =~= Seq::<CheckerInfoModel>::empty());
        }
        r
    }

    /// Records the outcome `error` of a check in `env`: it replaces the
    /// outcome recorded for `env`, or is added when there is none. The
    /// result says whether the outcome is new, changed or the same.
    pub fn add(&mut self, env: &CppCheckerEnv, error: Option<String>) -> (r: CppCheckerAddResult)
        ensures
            match env_position(old(self).view(), env.view()) {
                Some(i) => {
                    &&& final(self).view() == old(self).view().update(
                        i,
                        CheckerInfoModel { env: env.view(), error: opt_view(error) },
                    )
                    &&& add_result_view(r) == Some(
                        if old(self).view()[i].error == opt_view(error) {
                            None
                        } else {
                            Some(old(self).view()[i].error)
                        },
                    )
                },
                None => {
                    &&& final(self).view() == old(self).view().push(
                        CheckerInfoModel { env: env.view(), error: opt_view(error) },
                    )
                    &&& r is Added
                },
            },
            old(self).wf() ==> final(self).wf(),
    {
        let ghost before = self.view();
        let n = self.items.len();
        let mut i: usize = 0;
        while i < n
            invariant
                n == self.items@.len(),
                i <= n,
                *self == *old(self),
                before == self.view(),
                forall|j: int| 0 <= j < i ==> (#[trigger] self.items@[j]).env.view() != env.view(),
            decreases n - i,
        {
            if self.items[i].env.same_as(env) {
                proof {
                    lemma_env_position(before, env.view());
                    assert(before[i as int].env == env.view());
                    let p = env_position(before, env.view())->Some_0;
                    assert(p == i) by {
                        if p < i {
                            assert(self.items@[p].env.view() != env.view());
                        }
                    }
                }
                let item = self.items.remove(i);
                let CppCheckerInfo { env: item_env, error: old_error } = item;
                let r = if opt_strings_equal(&old_error, &error) {
                    CppCheckerAddResult::Unchanged
                } else {
                    CppCheckerAddResult::Changed { old: old_error }
                };
                let new_item = CppCheckerInfo { env: env.clone(), error };
                self.items.insert(i, new_item);
                proof {
                    assert(self.view() =~= before.update(
                        i as int,
                        CheckerInfoModel { env: env.view(), error: opt_view(error) },
                    ));
                    assert(self.view()[i as int].env == before[i as int].env);
                    assert forall|a: int, b: int|
                        0 <= a < self.view().len() && 0 <= b < self.view().len() && a != b
                            && envs_unique(before) implies self.view()[a].env != self.view()[b].env by {
                        assert(before[a].env != before[b].env);
                    }
                }
                return r;
            }
            i = i + 1;
        }
        proof {
            lemma_env_position(before, env.view());
            assert forall|j: int| 0 <= j < before.len() implies (#[trigger] before[j]).env
                != env.view() by {
                assert(self.items@[j].env.view() != env.view());
            }
        }
        self.items.push(CppCheckerInfo { env: env.clone(), error });
        proof {
            assert(self.view() =~= before.push(
                CheckerInfoModel { env: env.view(), error: opt_view(error) },
            ));
            assert forall|a: int, b: int|
                0 <= a < self.view().len() && 0 <= b < self.view().len() && a != b && envs_unique(
                    before,
                ) implies self.view()[a].env != self.view()[b].env by {
                if a < before.len() && b < before.len() {
                    assert(before[a].env != before[b].env);
                } else if a < before.len() {
                    assert(before[a].env != env.view());
                } else {
                    assert(before[b].env != env.view());
                }
            }
        }
        CppCheckerAddResult::Added
    }
}

/// A path in the generated wrapper library.
#[derive(Debug)]
pub struct RustName {
    pub parts: Vec<String>,
}

/// A boundary function generated for a declaration, with its own checks.
#[derive(Debug)]
pub struct FfiItem {
    pub cpp_item: CppAndFfiMethod,
    pub checks: CppCheckerInfoList,
    pub another_rust_item: Option<()>,
}

impl FfiItem {
    /// A boundary function that has not been checked yet.
    pub fn new(cpp_item: CppAndFfiMethod) -> (r: FfiItem)
        ensures
            r.cpp_item == cpp_item,
            r.checks.view() == Seq::<CheckerInfoModel>::empty(),
            r.another_rust_item is None,
    {
        FfiItem { cpp_item, checks: CppCheckerInfoList::new(), another_rust_item: None }
    }
}

/// The wrapper item generated for a declaration.
#[derive(Debug)]
pub struct RustItem {
    pub path: RustName,
    pub naming_strategy: (),
    pub sclass_nested_path: Option<RustName>,
}

/// A declaration in the ledger.
#[derive(Debug)]
pub struct DatabaseItem {
    pub cpp_data: CppItemData,
    pub source: DatabaseItemSource,
    pub ffi_items: Option<Vec<FfiItem>>,
    pub rust_item: Option<RustItem>,
}

/// All that is known of the declarations of one crate.
#[derive(Debug)]
pub struct Database {
    pub crate_name: String,
    pub items: Vec<DatabaseItem>,
    pub environments: Vec<CppCheckerEnv>,
    pub next_ffi_id: u64,
}

/// The position of the first item that is the same declaration as `d`.
pub open spec fn first_same(items: Seq<DatabaseItem>, d: CppItemData) -> Option<int>
    decreases items.len(),
{
    if items.len() == 0 {
        None
    } else {
        match first_same(items.drop_last(), d) {
            Some(i) => Some(i),
            None => if same_declaration(items.last().cpp_data, d) {
                Some(items.len() - 1)
            } else {
                None
            },
        }
    }
}

/// Facts about the first item that is the same declaration.
pub proof fn lemma_first_same(items: Seq<DatabaseItem>, d: CppItemData)
    ensures
        match first_same(items, d) {
            Some(i) => 0 <= i < items.len() && same_declaration(items[i].cpp_data, d) && forall|j: int|
                0 <= j < i ==> !same_declaration((#[trigger] items[j]).cpp_data, d),
            None => forall|j: int|
                0 <= j < items.len() ==> !same_declaration((#[trigger] items[j]).cpp_data, d),
        },
    decreases items.len(),
{
    if items.len() > 0 {
        lemma_first_same(items.drop_last(), d);
        let prev = items.drop_last();
        assert forall|j: int| 0 <= j < prev.len() implies prev[j] == items[j] by {}
    }
}

/// The items after merging the declaration `d` found by `source`, and
/// whether `d` was new: an item that is the same declaration keeps its
/// place and takes `source` only when `source` is the parser and its own
/// source is not; otherwise `d` is appended with nothing generated yet.
pub open spec fn merged(items: Seq<DatabaseItem>, source: DatabaseItemSource, d: CppItemData) -> (
    Seq<DatabaseItem>,
    bool,
) {
    match first_same(items, d) {
        Some(i) => (
            if source is CppParser && !(items[i].source is CppParser) {
                items.update(i, DatabaseItem { source: source, ..items[i] })
            } else {
                items
            },
            false,
        ),
        None => (
            items.push(DatabaseItem { cpp_data: d, source: source, ffi_items: None, rust_item: None }),
            true,
        ),
    }
}

/// The models of a list of environments.
pub open spec fn envs_view(envs: Seq<CppCheckerEnv>) -> Seq<CheckerEnvModel> {
    Seq::new(envs.len(), |i: int| envs[i].view())
}

impl Database {
    /// A ledger for the crate `crate_name` that holds nothing yet.
    pub fn empty(crate_name: &str) -> (r: Database)
        ensures
            r.crate_name@ == crate_name@,
            r.items@ == Seq::<DatabaseItem>::empty(),
            r.environments@ == Seq::<CppCheckerEnv>::empty(),
            r.next_ffi_id == 0,
    {
        Database {
            crate_name: owned(crate_name),
            items: Vec::new(),
            environments: Vec::new(),
            next_ffi_id: 0,
        }
    }

    /// The items, in the order they were added.
    pub fn items(&self) -> (r: &[DatabaseItem])
        ensures
            r@ == self.items@,
    {
        self.items.as_slice()
    }

    /// Forgets all items and environments.
    pub fn clear(&mut self)
        ensures
            final(self).crate_name == old(self).crate_name,
            final(self).items@ == Seq::<DatabaseItem>::empty(),
            final(self).environments@ == Seq::<CppCheckerEnv>::empty(),
            final(self).next_ffi_id == 0,
    {
        self.items.clear();
        self.environments.clear();
        self.next_ffi_id = 0;
    }

    /// The name of the crate.
    pub fn crate_name(&self) -> (r: &str)
        ensures
            r@ == self.crate_name@,
    {
        self.crate_name.as_str()
    }

    /// Merges the declaration `data` that `source` found; returns whether it
    /// was new. Parser provenance replaces any other, never the reverse.
    pub fn add_cpp_data(&mut self, source: DatabaseItemSource, data: CppItemData) -> (r: bool)
        ensures
            (final(self).items@, r) == merged(old(self).items@, source, data),
            final(self).crate_name == old(self).crate_name,
            final(self).environments == old(self).environments,
            final(self).next_ffi_id == old(self).next_ffi_id,
    {
        let ghost before = self.items@;
        let n = self.items.len();
        let mut i: usize = 0;
        while i < n
            invariant
                n == self.items@.len(),
                i <= n,
                *self == *old(self),
                before == self.items@,
                forall|j: int|
                    0 <= j < i ==> !same_declaration((#[trigger] self.items@[j]).cpp_data, data),
            decreases n - i,
        {
            if self.items[i].cpp_data.is_same(&data) {
                proof {
                    lemma_first_same(before, data);
                    let p = first_same(before, data)->Some_0;
                    assert(p == i) by {
                        if p < i {
                            assert(!same_declaration(self.items@[p].cpp_data, data));
                        }
                    }
                }
                // parser data takes priority
                if source.is_parser() && !self.items[i].source.is_parser() {
                    let mut item = self.items.remove(i);
                    item.source = source;
                    self.items.insert(i, item);
                    proof {
                        assert(self.items@ =~= merged(before, source, data).0);
                    }
                }
                return false;
            }
            i = i + 1;
        }
        proof {
            lemma_first_same(before, data);
        }
        self.items.push(DatabaseItem { cpp_data: data, source, ffi_items: None, rust_item: None });
        true
    }

    /// Attaches the boundary function `item` to the `index`-th declaration
    /// and returns the identifier it was given: the counter's value, which
    /// then grows by one.
    pub fn add_ffi_item(&mut self, index: usize, item: FfiItem) -> (id: u64)
        requires
            index < old(self).items@.len(),
            old(self).next_ffi_id < u64::MAX,
        ensures
            id == old(self).next_ffi_id,
            final(self).next_ffi_id == old(self).next_ffi_id + 1,
            final(self).items@.len() == old(self).items@.len(),
            final(self).items@[index as int].cpp_data == old(self).items@[index as int].cpp_data,
            final(self).items@[index as int].source == old(self).items@[index as int].source,
            final(self).items@[index as int].rust_item == old(self).items@[index as int].rust_item,
            final(self).items@[index as int].ffi_items matches Some(v) && v@ == match old(
                self,
            ).items@[index as int].ffi_items {
                Some(v) => v@,
                None => Seq::<FfiItem>::empty(),
            }.push(item),
            forall|j: int|
                0 <= j < old(self).items@.len() && j != index ==> final(self).items@[j] == old(
                    self,
                ).items@[j],
            final(self).crate_name == old(self).crate_name,
            final(self).environments == old(self).environments,
    {
        let mut entry = self.items.remove(index);
        let mut list = match entry.ffi_items {
            Some(v) => v,
            None => Vec::new(),
        };
        list.push(item);
        entry.ffi_items = Some(list);
        self.items.insert(index, entry);
        let id = self.next_ffi_id;
        self.next_ffi_id = self.next_ffi_id + 1;
        id
    }

    /// Registers the environment `env` unless an equal one is registered;
    /// returns whether it was added.
    pub fn add_environment(&mut self, env: &CppCheckerEnv) -> (r: bool)
        ensures
            r == !envs_view(old(self).environments@).contains(env.view()),
            envs_view(final(self).environments@) == if r {
                envs_view(old(self).environments@).push(env.view())
            } else {
                envs_view(old(self).environments@)
            },
            final(self).crate_name == old(self).crate_name,
            final(self).items == old(self).items,
            final(self).next_ffi_id == old(self).next_ffi_id,
    {
        let ghost before = envs_view(self.environments@);
        let n = self.environments.len();
        let mut i: usize = 0;
        while i < n
            invariant
                n == self.environments@.len(),
                i <= n,
                *self == *old(self),
                before == envs_view(self.environments@),
                forall|j: int| 0 <= j < i ==> (#[trigger] before[j]) != env.view(),
            decreases n - i,
        {
            if self.environments[i].same_as(env) {
                proof {
                    assert(before[i as int] == env.view());
                }
                return false;
            }
            i = i + 1;
        }
        self.environments.push(env.clone());
        proof {
            assert(envs_view(self.environments@) =~= before.push(env.view()));
        }
        true
    }
}

/// Where an item matches a declaration depends on the items' declarations
/// alone.
proof fn lemma_first_same_ignores_sources(a: Seq<DatabaseItem>, b: Seq<DatabaseItem>, d: CppItemData)
    requires
        a.len() == b.len(),
        forall|j: int| 0 <= j < a.len() ==> (#[trigger] a[j]).cpp_data == b[j].cpp_data,
    ensures
        first_same(a, d) == first_same(b, d),
    decreases a.len(),
{
    if a.len() > 0 {
        let (pa, pb) = (a.drop_last(), b.drop_last());
        assert forall|j: int| 0 <= j < pa.len() implies (#[trigger] pa[j]).cpp_data == pb[j].cpp_data by {
            assert(pa[j] == a[j] && pb[j] == b[j]);
        }
        lemma_first_same_ignores_sources(pa, pb, d);
    }
}

/// Merging the same declaration from the same source a second time changes
/// nothing and reports that the declaration is not new.
pub proof fn lemma_merge_idempotent(items: Seq<DatabaseItem>, source: DatabaseItemSource, d: CppItemData)
    ensures
        merged(merged(items, source, d).0, source, d) == (merged(items, source, d).0, false),
{
    let once = merged(items, source, d).0;
    lemma_first_same(items, d);
    match first_same(items, d) {
        Some(i) => {
            assert forall|j: int| 0 <= j < once.len() implies (#[trigger] once[j]).cpp_data
                == items[j].cpp_data by {}
            lemma_first_same_ignores_sources(once, items, d);
        },
        None => {
            assert(once.drop_last() =~= items);
            assert(same_declaration(once.last().cpp_data, d));
        },
    }
}

/// A declaration found by the parser takes over the provenance of a matching
/// item whose provenance was synthesized.
pub proof fn lemma_parser_source_wins(items: Seq<DatabaseItem>, source: DatabaseItemSource, d: CppItemData)
    requires
        source is CppParser,
        first_same(items, d) is Some,
        !(items[first_same(items, d)->Some_0].source is CppParser),
    ensures
        merged(items, source, d).0 == items.update(
            first_same(items, d)->Some_0,
            DatabaseItem { source: source, ..items[first_same(items, d)->Some_0] },
        ),
        merged(items, source, d).1 == false,
{
}

/// A synthesized declaration never takes over the provenance of a matching
/// item that the parser found: the ledger stays as it is.
pub proof fn lemma_synthesized_source_never_wins(
    items: Seq<DatabaseItem>,
    source: DatabaseItemSource,
    d: CppItemData,
)
    requires
        !(source is CppParser),
        first_same(items, d) is Some,
        items[first_same(items, d)->Some_0].source is CppParser,
    ensures
        merged(items, source, d) == (items, false),
{
}

/// No two items of the ledger are the same declaration.
pub open spec fn declarations_unique(items: Seq<DatabaseItem>) -> bool {
    forall|i: int, j: int|
        0 <= i < items.len() && 0 <= j < items.len() && i != j ==> !same_declaration(
            items[i].cpp_data,
            items[j].cpp_data,
        )
}

/// Being the same declaration is symmetric.
pub proof fn lemma_same_declaration_symmetric(a: CppItemData, b: CppItemData)
    ensures
        same_declaration(a, b) == same_declaration(b, a),
{
}

/// Merging never makes two items of the ledger the same declaration.
pub proof fn lemma_merge_keeps_declarations_unique(
    items: Seq<DatabaseItem>,
    source: DatabaseItemSource,
    d: CppItemData,
)
    requires
        declarations_unique(items),
    ensures
        declarations_unique(merged(items, source, d).0),
{
    let after = merged(items, source, d).0;
    lemma_first_same(items, d);
    match first_same(items, d) {
        Some(i) => {
            assert forall|a: int, b: int|
                0 <= a < after.len() && 0 <= b < after.len() && a != b implies !same_declaration(
                after[a].cpp_data,
                after[b].cpp_data,
            ) by {
                assert(after[a].cpp_data == items[a].cpp_data);
                assert(after[b].cpp_data == items[b].cpp_data);
            }
        },
        None => {
            assert forall|a: int, b: int|
                0 <= a < after.len() && 0 <= b < after.len() && a != b implies !same_declaration(
                after[a].cpp_data,
                after[b].cpp_data,
            ) by {
                if a == items.len() {
                    lemma_same_declaration_symmetric(d, items[b].cpp_data);
                    assert(!same_declaration(items[b].cpp_data, d));
                } else if b == items.len() {
                    assert(!same_declaration(items[a].cpp_data, d));
                } else {
                    assert(after[a] == items[a] && after[b] == items[b]);
                }
            }
        },
    }
}

} // verus!
