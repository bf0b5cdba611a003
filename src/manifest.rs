//! Application and asset manifests, and the checks that suggest fixes to them.

use crate::text::{is_listed, listed, quote, quoted, texts};
use std::collections::HashMap;
use vstd::prelude::*;

verus! {

/// A JSON value of the manifest that the checks carry along without reading.
#[verifier::external_type_specification]
#[verifier::external_body]
pub struct ExJsonValue(serde_json::Value);

pub const VALID_ACCESS_SPEC_OPTIONS: [&'static str; 5] = [
    "",
    "VIEW",
    "UPLOAD",
    "CONTRIBUTE",
    "ADMINISTER",
];

pub const VALID_CATEGORIES: [&'static str; 13] = [
    "Annotation",
    "Assembly",
    "Debugging",
    "Export",
    "Import",
    "Mappings Manipulation",
    "Read Manipulation",
    "Read Mapping",
    "Reports",
    "RNA-Seq",
    "Statistics",
    "Structural Variation",
    "Variation Calling",
];

pub const VALID_REGION: [&'static str; 8] = [
    "*",
    "aws:us-east-1",
    "aws:eu-central-1",
    "aws:ap-southeast-2",
    "aws:eu-west-2",
    "aws:eu-west-2-g",
    "azure:westus",
    "azure:westeurope",
];

pub const VALID_INSTANCE_TYPE: [&'static str; 108] = [
    "mem1_ssd1_x2",
    "mem1_ssd1_x4",
    "mem1_ssd1_x8",
    "mem1_ssd1_x16",
    "mem1_ssd1_x32",
    "mem1_ssd1_x36",
    "mem1_ssd1_v2_x2",
    "mem1_ssd1_v2_x4",
    "mem1_ssd1_v2_x8",
    "mem1_ssd1_v2_x16",
    "mem1_ssd1_v2_x36",
    "mem1_ssd1_v2_x72",
    "mem1_ssd2_x2",
    "mem1_ssd2_x4",
    "mem1_ssd2_x8",
    "mem1_ssd2_x16",
    "mem1_ssd2_x36",
    "mem1_ssd2_v2_x2",
    "mem1_ssd2_v2_x4",
    "mem1_ssd2_v2_x8",
    "mem1_ssd2_v2_x16",
    "mem1_ssd2_v2_x36",
    "mem1_ssd2_v2_x72",
    "mem1_hdd2_x8",
    "mem1_hdd2_x32",
    "mem3_ssd1_v2_x16",
    "mem3_ssd1_v2_x32",
    "mem3_ssd1_v2_x48",
    "mem3_ssd1_v2_x64",
    "mem3_ssd1_v2_x96",
    "mem3_ssd2_x4",
    "mem3_ssd2_x8",
    "mem3_ssd2_x16",
    "mem3_ssd2_x32",
    "mem3_ssd2_v2_x2",
    "mem3_ssd2_v2_x4",
    "mem3_ssd2_v2_x8",
    "mem3_ssd2_v2_x16",
    "mem3_ssd2_v2_x32",
    "mem3_ssd2_v2_x64",
    "mem3_ssd3_x2",
    "mem3_ssd3_x4",
    "mem3_ssd3_x8",
    "mem3_ssd3_x12",
    "mem3_ssd3_x24",
    "mem3_ssd3_x48",
    "mem3_ssd3_x96",
    "mem3_hdd2_x2",
    "mem3_hdd2_x4",
    "mem3_hdd2_x8",
    "mem3_hdd2_v2_x2",
    "mem3_hdd2_v2_x4",
    "mem3_hdd2_v2_x8",
    "azure:mem1_ssd1_x4",
    "azure:mem1_ssd1_x8",
    "azure:mem1_ssd1_x16",
    "azure:mem2_ssd1_x1",
    "azure:mem2_ssd1_x2",
    "azure:mem2_ssd1_x4",
    "azure:mem2_ssd1_x8",
    "azure:mem2_ssd1_x16",
    "azure:mem3_ssd1_x2",
    "azure:mem3_ssd1_x4",
    "azure:mem3_ssd1_x8",
    "azure:mem3_ssd1_x16",
    "azure:mem3_ssd1_x20",
    "azure:mem4_ssd1_x2",
    "azure:mem4_ssd1_x4",
    "azure:mem4_ssd1_x8",
    "azure:mem4_ssd1_x16",
    "azure:mem4_ssd1_x32",
    "azure:mem5_ssd2_x64*",
    "azure:mem5_ssd2_x128*",
    "mem1_ssd1_gpu2_x8",
    "mem1_ssd1_gpu2_x32",
    "mem2_ssd1_gpu_x16",
    "mem2_ssd1_gpu_x32",
    "mem2_ssd1_gpu_x48",
    "mem2_ssd1_gpu_x64",
    "mem3_ssd1_gpu_x8",
    "mem3_ssd1_gpu_x32",
    "mem3_ssd1_gpu_x64",
    "azure:mem3_ssd2_gpu4_x64",
    "mem2_ssd1_x2",
    "mem2_ssd1_x4",
    "mem2_ssd1_x8",
    "mem2_ssd1_v2_x2",
    "mem2_ssd1_v2_x4",
    "mem2_ssd1_v2_x8",
    "mem2_ssd1_v2_x16",
    "mem2_ssd1_v2_x32",
    "mem2_ssd1_v2_x48",
    "mem2_ssd1_v2_x64",
    "mem2_ssd1_v2_x96",
    "mem2_hdd2_x1",
    "mem2_hdd2_x2",
    "mem2_hdd2_x4",
    "mem2_hdd2_v2_x2",
    "mem2_hdd2_v2_x4",
    "mem3_ssd1_x2",
    "mem3_ssd1_x4",
    "mem3_ssd1_x8",
    "mem3_ssd1_x16",
    "mem3_ssd1_x32",
    "mem3_ssd1_v2_x2",
    "mem3_ssd1_v2_x4",
    "mem3_ssd1_v2_x8",
    "mem4_ssd1_x128",
];

pub const VALID_CLUSTER_SPEC_TYPE: [&'static str; 4] = [
    "",
    "generic",
    "dxspark",
    "apachespark",
];

pub const VALID_CLUSTER_SPEC_VERSION: [&'static str; 3] = [
    "",
    "2.4.4",
    "3.2.0",
];

/// How an applet's entry point is run.
#[derive(Debug, Clone, Copy, PartialEq, Eq, Structural)]
pub enum Interpreter {
    Python3,
    Python27,
    Bash,
}

/// Linux distribution of the execution environment.
#[derive(Debug, Clone, Copy, PartialEq, Eq, Structural)]
pub enum LinuxDistribution {
    Ubuntu,
}

/// Version of the execution environment for a release.
#[derive(Debug, Clone, Copy, PartialEq, Eq, Structural)]
pub enum LinuxVersion {
    V0,
    V1,
}

/// Release of the Linux distribution.
#[derive(Debug, Clone, Copy, PartialEq, Eq, Structural)]
pub enum LinuxRelease {
    V14_04,
    V16_04,
    V20_04,
}

/// Package manager that installs an execution dependency.
#[derive(Debug, Clone, Copy, PartialEq, Eq, Hash, Structural)]
pub enum PackageManager {
    Apt,
    Cpan,
    Cran,
    Gem,
    Pip,
}

/// Class of an input or output of an applet.
#[derive(Debug, Clone, Copy, PartialEq, Eq, Structural)]
pub enum InputOutputClass {
    Applet,
    Boolean,
    File,
    Float,
    Hash,
    Int,
    Record,
    String,
    ArrayApplet,
    ArrayBoolean,
    ArrayFile,
    ArrayFloat,
    ArrayInt,
    ArrayRecord,
    ArrayString,
}

/// The name of a class in a workflow description.
pub open spec fn wdl_class_name(c: InputOutputClass) -> Seq<char> {
    match c {
        InputOutputClass::Applet => "Applet"@,
        InputOutputClass::ArrayApplet => "Array[Applet]"@,
        InputOutputClass::ArrayBoolean => "Array[Boolean]"@,
        InputOutputClass::ArrayFile => "Array[File]"@,
        InputOutputClass::ArrayFloat => "Array[Float]"@,
        InputOutputClass::ArrayInt => "Array[Int]"@,
        InputOutputClass::ArrayRecord => "Array[Record]"@,
        InputOutputClass::ArrayString => "Array[String]"@,
        InputOutputClass::Boolean => "Boolean"@,
        InputOutputClass::File => "File"@,
        InputOutputClass::Float => "Float"@,
        InputOutputClass::Hash => "Hash"@,
        InputOutputClass::Int => "Int"@,
        InputOutputClass::Record => "Record"@,
        InputOutputClass::String => "String"@,
    }
}

impl InputOutputClass {
    /// The name of this class in a workflow description.
    pub fn wdl_class(&self) -> (r: &'static str)
        ensures
            r@ == wdl_class_name(*self),
    {
        match self {
            InputOutputClass::Applet => "Applet",
            InputOutputClass::ArrayApplet => "Array[Applet]",
            InputOutputClass::ArrayBoolean => "Array[Boolean]",
            InputOutputClass::ArrayFile => "Array[File]",
            InputOutputClass::ArrayFloat => "Array[Float]",
            InputOutputClass::ArrayInt => "Array[Int]",
            InputOutputClass::ArrayRecord => "Array[Record]",
            InputOutputClass::ArrayString => "Array[String]",
            InputOutputClass::Boolean => "Boolean",
            InputOutputClass::File => "File",
            InputOutputClass::Float => "Float",
            InputOutputClass::Hash => "Hash",
            InputOutputClass::Int => "Int",
            InputOutputClass::Record => "Record",
            InputOutputClass::String => "String",
        }
    }
}

/// Unit of a timeout policy.
#[derive(Debug, Clone, Copy, PartialEq, Eq, Hash, Structural)]
pub enum TimeoutUnit {
    Minutes,
    Hours,
    Days,
}

/// An asset bundle's manifest.
#[derive(Debug, Clone)]
pub struct DxAsset {
    pub name: Option<String>,
    pub title: String,
    pub description: Option<String>,
    pub version: Option<String>,
    pub distribution: LinuxDistribution,
    pub release: Option<LinuxRelease>,
    pub exec_depends: Vec<ExecDepends>,
}

/// Per-region options of an application, keyed by instance-type entry name.
#[derive(Debug, Clone)]
pub struct RegionalOptions {
    pub resources: Option<String>,
    pub system_requirements: Vec<(String, SystemRequirements)>,
}

/// The machine an entry point runs on.
#[derive(Debug, Clone)]
pub struct SystemRequirements {
    pub instance_type: String,
    pub cluster_spec: Option<ClusterSpec>,
}

/// A cluster that an entry point runs on.
#[derive(Debug, Clone)]
pub struct ClusterSpec {
    pub cluster_type: String,
    pub version: String,
    pub initial_instance_count: u32,
    pub ports: String,
    pub bootstrap_script: String,
}

/// The permissions an application asks for.
#[derive(Debug, Clone)]
pub struct AccessSpec {
    pub network: Vec<String>,
    pub project: Option<String>,
    pub all_projects: Option<String>,
    pub developer: Option<bool>,
    pub project_creation: Option<bool>,
}

/// A web application served by a job.
#[derive(Debug, Clone)]
pub struct HttpsApp {
    pub ports: Vec<u32>,
    pub shared_access: String,
}

/// A suggested value for an input.
#[derive(Debug, Clone)]
pub struct InputSpecSuggestion {
    pub name: String,
    pub project: String,
    pub path: String,
    pub region: String,
}

/// An output of an applet.
#[derive(Debug, Clone)]
pub struct OutputSpec {
    pub name: String,
    pub class: InputOutputClass,
    pub label: Option<String>,
    pub help: Option<String>,
    pub optional: Option<bool>,
    pub patterns: Vec<String>,
}

/// How an applet runs.
#[derive(Debug, Clone)]
pub struct RunSpec {
    pub interpreter: Option<Interpreter>,
    pub file: Option<String>,
    pub distribution: LinuxDistribution,
    pub release: Option<LinuxRelease>,
    pub version: Option<LinuxVersion>,
    pub code: Option<String>,
    pub head_job_on_demand: Option<bool>,
    pub restartable_entry_points: Option<String>,
    pub asset_depends: Option<HashMap<String, String>>,
    pub exec_depends: Vec<ExecDepends>,
    pub timeout_policy: Option<HashMap<String, HashMap<TimeoutUnit, u32>>>,
}

/// A package installed before an applet runs.
#[derive(Debug, Clone)]
pub struct ExecDepends {
    pub name: String,
    pub package_manager: Option<PackageManager>,
    pub version: Option<String>,
    pub stages: Vec<String>,
}


/// What is wrong with a cluster spec: a count below one, then an unknown
/// version, then an unknown type.
pub open spec fn cluster_spec_findings(c: ClusterSpec) -> Seq<Seq<char>> {
    (if c.initial_instance_count < 1 {
        seq!["initialInstanceCount should be greater than zero"@]
    } else {
        Seq::empty()
    }) + (if !listed(VALID_CLUSTER_SPEC_VERSION@, c.version@) {
        seq![quoted("Invalid cluster spec version \""@, c.version@)]
    } else {
        Seq::empty()
    }) + (if !listed(VALID_CLUSTER_SPEC_TYPE@, c.cluster_type@) {
        seq![quoted("Invalid cluster spec type \""@, c.cluster_type@)]
    } else {
        Seq::empty()
    })
}

/// Suggests fixes to a cluster spec.
pub fn lint_app_cluster_spec(cluster_spec: &ClusterSpec) -> (r: Vec<String>)
    ensures
        texts(r@) == cluster_spec_findings(*cluster_spec),
{
    let mut suggestions: Vec<String> = Vec::new();
    if cluster_spec.initial_instance_count < 1 {
        suggestions.push(String::from_str("initialInstanceCount should be greater than zero"));
    }
    let ghost first = texts(suggestions@);
    let version = cluster_spec.version.as_str();
    if !is_listed(version, &VALID_CLUSTER_SPEC_VERSION) {
        suggestions.push(quote("Invalid cluster spec version \"", version));
    }
    let ghost second = texts(suggestions@);
    let cluster_type = cluster_spec.cluster_type.as_str();
    if !is_listed(cluster_type, &VALID_CLUSTER_SPEC_TYPE) {
        suggestions.push(quote("Invalid cluster spec type \"", cluster_type));
    }
    assert(texts(suggestions@) =~= cluster_spec_findings(*cluster_spec));
    suggestions
}

/// What is wrong with one machine requirement: an unknown instance type,
/// then what is wrong with its cluster spec.
pub open spec fn requirement_findings(req: SystemRequirements) -> Seq<Seq<char>> {
    (if !listed(VALID_INSTANCE_TYPE@, req.instance_type@) {
        seq![quoted("Invalid instance type \""@, req.instance_type@)]
    } else {
        Seq::empty()
    }) + match req.cluster_spec {
        Some(c) => cluster_spec_findings(c),
        None => Seq::empty(),
    }
}

/// What is wrong with each machine requirement, in order.
pub open spec fn requirements_findings(reqs: Seq<(String, SystemRequirements)>) -> Seq<Seq<char>>
    decreases reqs.len(),
{
    if reqs.len() == 0 {
        Seq::empty()
    } else {
        requirements_findings(reqs.drop_last()) + requirement_findings(reqs.last().1)
    }
}

/// Suggests fixes to machine requirements.
pub fn lint_app_system_requirements(req: &Vec<(String, SystemRequirements)>) -> (r: Vec<String>)
    ensures
        texts(r@) == requirements_findings(req@),
{
    let mut suggestions: Vec<String> = Vec::new();
    let mut i: usize = 0;
    while i < req.len()
        invariant
            i <= req@.len(),
            texts(suggestions@) == requirements_findings(req@.take(i as int)),
        decreases req@.len() - i,
    {
        let r = &req[i].1;
        let ghost before = suggestions@;
        let instance = r.instance_type.as_str();
        if !is_listed(instance, &VALID_INSTANCE_TYPE) {
            suggestions.push(quote("Invalid instance type \"", instance));
        }
        let ghost mid = suggestions@;
        if let Some(cluster_spec) = &r.cluster_spec {
            let mut s = lint_app_cluster_spec(cluster_spec);
            suggestions.append(&mut s);
        }
        proof {
            assert(req@.take(i + 1).drop_last() =~= req@.take(i as int));
            assert(texts(suggestions@) =~= texts(before) + requirement_findings(req@[i as int].1));
        }
        i = i + 1;
    }
    assert(req@.take(req@.len() as int) =~= req@);
    suggestions
}

/// What is wrong with one region's options: an unknown region, then what is
/// wrong with its machine requirements.
pub open spec fn region_findings(name: Seq<char>, opts: RegionalOptions) -> Seq<Seq<char>> {
    (if !listed(VALID_REGION@, name) {
        seq![quoted("Invalid region \""@, name)]
    } else {
        Seq::empty()
    }) + requirements_findings(opts.system_requirements@)
}

/// What is wrong with each region's options, in order.
pub open spec fn regions_findings(opts: Seq<(String, RegionalOptions)>) -> Seq<Seq<char>>
    decreases opts.len(),
{
    if opts.len() == 0 {
        Seq::empty()
    } else {
        regions_findings(opts.drop_last()) + region_findings(opts.last().0@, opts.last().1)
    }
}

/// Suggests fixes to per-region options.
pub fn lint_app_regional_options(opts: &Vec<(String, RegionalOptions)>) -> (r: Vec<String>)
    ensures
        texts(r@) == regions_findings(opts@),
{
    let mut suggestions: Vec<String> = Vec::new();
    let mut i: usize = 0;
    while i < opts.len()
        invariant
            i <= opts@.len(),
            texts(suggestions@) == regions_findings(opts@.take(i as int)),
        decreases opts@.len() - i,
    {
        let region_name = opts[i].0.as_str();
        let ghost before = suggestions@;
        if !is_listed(region_name, &VALID_REGION) {
            suggestions.push(quote("Invalid region \"", region_name));
        }
        let mut s = lint_app_system_requirements(&opts[i].1.system_requirements);
        suggestions.append(&mut s);
        proof {
            assert(opts@.take(i + 1).drop_last() =~= opts@.take(i as int));
            assert(texts(suggestions@) =~= texts(before) + region_findings(
                opts@[i as int].0@,
                opts@[i as int].1,
            ));
        }
        i = i + 1;
    }
    assert(opts@.take(opts@.len() as int) =~= opts@);
    suggestions
}

/// What is wrong with the access an application asks for: an unknown level
/// for its project, then for all projects.
pub open spec fn access_findings(a: AccessSpec) -> Seq<Seq<char>> {
    (match a.project {
        Some(p) => if !listed(VALID_ACCESS_SPEC_OPTIONS@, p@) {
            seq![quoted("Invalid project access \""@, p@)]
        } else {
            Seq::empty()
        },
        None => Seq::empty(),
    }) + (match a.all_projects {
        Some(p) => if !listed(VALID_ACCESS_SPEC_OPTIONS@, p@) {
            seq![quoted("Invalid allProjects access \""@, p@)]
        } else {
            Seq::empty()
        },
        None => Seq::empty(),
    })
}

/// Suggests fixes to the access an application asks for.
pub fn lint_app_access_spec(access: &AccessSpec) -> (r: Vec<String>)
    ensures
        texts(r@) == access_findings(*access),
{
    let mut res: Vec<String> = Vec::new();
    if let Some(project) = &access.project {
        if !is_listed(project.as_str(), &VALID_ACCESS_SPEC_OPTIONS) {
            res.push(quote("Invalid project access \"", project.as_str()));
        }
    }
    let ghost first = texts(res@);
    if let Some(all_projects) = &access.all_projects {
        if !is_listed(all_projects.as_str(), &VALID_ACCESS_SPEC_OPTIONS) {
            res.push(quote("Invalid allProjects access \"", all_projects.as_str()));
        }
    }
    assert(texts(res@) =~= access_findings(*access));
    res
}

/// The release and version that do not go together.
pub open spec fn release_version_conflict(run_spec: RunSpec) -> bool {
    run_spec.release == Some(LinuxRelease::V20_04) && run_spec.version == Some(LinuxVersion::V1)
}

/// Suggests a fix when the execution environment's version does not suit its release.
pub fn lint_app_release_version(run_spec: &RunSpec) -> (r: Option<String>)
    ensures
        if release_version_conflict(*run_spec) {
            r matches Some(m) && m@ == "runSpec.version should be 0 if release is 20.04"@
        } else {
            r is None
        },
{
    if run_spec.release == Some(LinuxRelease::V20_04) && run_spec.version == Some(
        LinuxVersion::V1,
    ) {
        Some(String::from_str("runSpec.version should be 0 if release is 20.04"))
    } else {
        None
    }
}


/// The categories that are not among the known ones, in order.
pub open spec fn bad_categories(cats: Seq<String>) -> Seq<Seq<char>>
    decreases cats.len(),
{
    if cats.len() == 0 {
        Seq::empty()
    } else if listed(VALID_CATEGORIES@, cats.last()@) {
        bad_categories(cats.drop_last())
    } else {
        bad_categories(cats.drop_last()).push(cats.last()@)
    }
}

/// The items one after another, with `sep` between each two.
pub open spec fn join_with(items: Seq<Seq<char>>, sep: Seq<char>) -> Seq<char>
    decreases items.len(),
{
    if items.len() == 0 {
        Seq::empty()
    } else if items.len() == 1 {
        items[0]
    } else {
        join_with(items.drop_last(), sep) + sep + items.last()
    }
}

/// The suggestion for unknown categories, if there are any.
pub open spec fn categories_finding(cats: Seq<String>) -> Option<Seq<char>> {
    let bad = bad_categories(cats);
    if bad.len() == 0 {
        None
    } else if bad.len() == 1 {
        Some("Invalid category: "@ + join_with(bad, ", "@))
    } else {
        Some("Invalid categories: "@ + join_with(bad, ", "@))
    }
}

/// Suggests a fix when some categories are not known ones.
pub fn lint_app_categories(categories: &[String]) -> (r: Option<String>)
    ensures
        match categories_finding(categories@) {
            None => r is None,
            Some(m) => r matches Some(t) && t@ == m,
        },
{
    let mut bad: Vec<String> = Vec::new();
    let mut i: usize = 0;
    while i < categories.len()
        invariant
            i <= categories@.len(),
            texts(bad@) == bad_categories(categories@.take(i as int)),
        decreases categories@.len() - i,
    {
        let cat = &categories[i];
        proof {
            assert(categories@.take(i + 1).drop_last() =~= categories@.take(i as int));
        }
        if !is_listed(cat.as_str(), &VALID_CATEGORIES) {
            bad.push(cat.clone());
            assert(texts(bad@) =~= bad_categories(categories@.take(i + 1)));
        }
        i = i + 1;
    }
    assert(categories@.take(categories@.len() as int) =~= categories@);
    if bad.len() == 0 {
        return None;
    }
    let mut out = if bad.len() > 1 {
        String::from_str("Invalid categories: ")
    } else {
        String::from_str("Invalid category: ")
    };
    let ghost head = out@;
    let mut j: usize = 0;
    while j < bad.len()
        invariant
            j <= bad@.len(),
            bad@.len() > 0,
            out@ == head + join_with(texts(bad@).take(j as int), ", "@),
        decreases bad@.len() - j,
    {
        proof {
            let t = texts(bad@);
            assert(t.take(j + 1).drop_last() =~= t.take(j as int));
        }
        if j > 0 {
            out.append(", ");
        }
        out.append(bad[j].as_str());
        proof {
            let t = texts(bad@);
            if j == 0 {
                assert(t.take(1) =~= seq![bad@[0]@]);
                assert(t.take(0) =~= Seq::<Seq<char>>::empty());
            }
        }
        j = j + 1;
    }
    assert(texts(bad@).take(bad@.len() as int) =~= texts(bad@));
    Some(out)
}

/// Characters of the Unicode general category `Nd`, the class `\d` of a regular expression.
pub uninterp spec fn is_decimal_digit(c: char) -> bool;

/// Relies on the regex crate's class `\d`, which its default features make
/// Unicode's `\p{Nd}`: whether the single character `c` is a decimal digit.
/// The ASCII digits are, `.` is not.
#[verifier::external_body]
fn decimal_digit(c: char) -> (r: bool)
    ensures
        r == is_decimal_digit(c),
        ('0' <= c && c <= '9') ==> r,
        c == '.' ==> !r,
{
    let mut buf = [0u8; 4];
    regex::Regex::new(r"^\d$").unwrap().is_match(c.encode_utf8(&mut buf))
}

/// The characters are one or more decimal digits.
pub open spec fn is_digits(s: Seq<char>) -> bool {
    s.len() > 0 && forall|i: int| 0 <= i < s.len() ==> is_decimal_digit(#[trigger] s[i])
}

/// `s` is three runs of digits, split by dots at `a` and `b`.
pub open spec fn semver_at(s: Seq<char>, a: int, b: int) -> bool {
    &&& 0 <= a < b < s.len()
    &&& s[a] == '.'
    &&& s[b] == '.'
    &&& is_digits(s.take(a))
    &&& is_digits(s.subrange(a + 1, b))
    &&& is_digits(s.skip(b + 1))
}

/// `s` reads as a version `major.minor.patch`, each a run of decimal digits.
pub open spec fn is_semver(s: Seq<char>) -> bool {
    exists|a: int, b: int| #[trigger] semver_at(s, a, b)
}

/// In a version `major.minor.patch`, the two dots are the only ones.
proof fn lemma_semver_dots(s: Seq<char>, a: int, b: int)
    requires
        semver_at(s, a, b),
        !is_decimal_digit('.'),
    ensures
        forall|j: int| 0 <= j < s.len() && s[j] == '.' ==> j == a || j == b,
{
    assert forall|j: int| 0 <= j < s.len() && s[j] == '.' implies j == a || j == b by {
        if j < a {
            assert(s.take(a)[j] == s[j]);
        } else if a < j < b {
            assert(s.subrange(a + 1, b)[j - a - 1] == s[j]);
        } else if j > b {
            assert(s.skip(b + 1)[j - b - 1] == s[j]);
        }
    }
}

/// Whether `v` reads as a version `major.minor.patch`.
fn is_semver_text(v: &str) -> (r: bool)
    ensures
        r == is_semver(v@),
{
    let n = v.unicode_len();
    let _dot_is_digit = decimal_digit('.');
    let mut dots: usize = 0;
    let mut a: usize = 0;
    let mut b: usize = 0;
    let mut i: usize = 0;
    while i < n
        invariant
            n == v@.len(),
            i <= n,
            dots <= 2,
            dots >= 1 ==> a < i && v@[a as int] == '.',
            dots == 2 ==> a < b && b < i && v@[b as int] == '.',
            !is_decimal_digit('.'),
            forall|j: int|
                0 <= j < i && !(dots >= 1 && j == a) && !(dots == 2 && j == b) ==> is_decimal_digit(
                    #[trigger] v@[j],
                ),
        decreases n - i,
    {
        let c = v.get_char(i);
        if c == '.' {
            if dots == 0 {
                a = i;
                dots = 1;
            } else if dots == 1 {
                b = i;
                dots = 2;
            } else {
                proof {
                    if is_semver(v@) {
                        let (x, y) = choose|x: int, y: int| #[trigger] semver_at(v@, x, y);
                        lemma_semver_dots(v@, x, y);
                    }
                }
                return false;
            }
        } else if !decimal_digit(c) {
            proof {
                if is_semver(v@) {
                    let (x, y) = choose|x: int, y: int| #[trigger] semver_at(v@, x, y);
                    assert(v@[x] == '.' && v@[y] == '.');
                    if i < x {
                        assert(v@.take(x)[i as int] == v@[i as int]);
                    } else if x < i < y {
                        assert(v@.subrange(x + 1, y)[i - x - 1] == v@[i as int]);
                    } else {
                        assert(v@.skip(y + 1)[i - y - 1] == v@[i as int]);
                    }
                }
            }
            return false;
        }
        i = i + 1;
    }
    let ok = dots == 2 && a > 0 && b > a + 1 && b + 1 < n;
    proof {
        if ok {
            assert forall|j: int| 0 <= j < v@.take(a as int).len() implies is_decimal_digit(
                #[trigger] v@.take(a as int)[j],
            ) by {
                assert(v@.take(a as int)[j] == v@[j]);
            }
            assert forall|j: int|
                0 <= j < v@.subrange(a + 1, b as int).len() implies is_decimal_digit(
                #[trigger] v@.subrange(a + 1, b as int)[j],
            ) by {
                assert(v@.subrange(a + 1, b as int)[j] == v@[a + 1 + j]);
            }
            assert forall|j: int| 0 <= j < v@.skip(b + 1).len() implies is_decimal_digit(
                #[trigger] v@.skip(b + 1)[j],
            ) by {
                assert(v@.skip(b + 1)[j] == v@[b + 1 + j]);
            }
            assert(semver_at(v@, a as int, b as int));
        } else if is_semver(v@) {
            let (x, y) = choose|x: int, y: int| #[trigger] semver_at(v@, x, y);
            lemma_semver_dots(v@, x, y);
            assert(v@.take(x).len() > 0);
            assert(v@.subrange(x + 1, y).len() > 0);
            assert(v@.skip(y + 1).len() > 0);
            if dots < 2 {
                assert(is_decimal_digit(v@[x]) || is_decimal_digit(v@[y]) || (dots >= 1 && x == a
                    && y == a));
            }
        }
    }
    ok
}

/// The suggestion for a version that is not `major.minor.patch`.
pub open spec fn version_finding(version: Option<String>) -> Option<Seq<char>> {
    match version {
        Some(v) => if is_semver(v@) {
            None
        } else {
            Some(quoted("Version \""@, v@) + " should be SemVar"@)
        },
        None => None,
    }
}

/// Suggests a fix when a version is not of the form `major.minor.patch`.
pub fn lint_version(version: &Option<String>) -> (r: Option<String>)
    ensures
        match version_finding(*version) {
            None => r is None,
            Some(m) => r matches Some(t) && t@ == m,
        },
{
    match version {
        Some(v) => {
            if is_semver_text(v.as_str()) {
                None
            } else {
                let mut m = quote("Version \"", v.as_str());
                m.append(" should be SemVar");
                Some(m)
            }
        },
        None => None,
    }
}

/// Suggests fixes to an asset manifest.
pub fn lint_asset(asset: &DxAsset) -> (r: Vec<String>)
    ensures
        match version_finding(asset.version) {
            None => r@.len() == 0,
            Some(m) => r@.len() == 1 && r@[0]@ == m,
        },
{
    let mut suggestions: Vec<String> = Vec::new();
    if let Some(s) = lint_version(&asset.version) {
        suggestions.push(s);
    }
    suggestions
}


impl Interpreter {
    /// The text shown for this interpreter.
    pub fn as_str(&self) -> (r: &'static str)
        ensures
            r@ == match self {
                Interpreter::Python3 => "python3"@,
                Interpreter::Python27 => "python2.7"@,
                Interpreter::Bash => "bash"@,
            },
    {
        match self {
            Interpreter::Python3 => "python3",
            Interpreter::Python27 => "python2.7",
            Interpreter::Bash => "bash",
        }
    }
}

impl LinuxDistribution {
    /// The text shown for this distribution.
    pub fn as_str(&self) -> (r: &'static str)
        ensures
            r@ == match self {
                LinuxDistribution::Ubuntu => "Ubuntu"@,
            },
    {
        match self {
            LinuxDistribution::Ubuntu => "Ubuntu",
        }
    }
}

impl LinuxVersion {
    /// The text shown for this version.
    pub fn as_str(&self) -> (r: &'static str)
        ensures
            r@ == match self {
                LinuxVersion::V0 => "0"@,
                LinuxVersion::V1 => "1"@,
            },
    {
        match self {
            LinuxVersion::V0 => "0",
            LinuxVersion::V1 => "1",
        }
    }
}

impl LinuxRelease {
    /// The text shown for this release.
    pub fn as_str(&self) -> (r: &'static str)
        ensures
            r@ == match self {
                LinuxRelease::V14_04 => "14.04"@,
                LinuxRelease::V16_04 => "16.04"@,
                LinuxRelease::V20_04 => "20.04"@,
            },
    {
        match self {
            LinuxRelease::V14_04 => "14.04",
            LinuxRelease::V16_04 => "16.04",
            LinuxRelease::V20_04 => "20.04",
        }
    }
}

impl PackageManager {
    /// The text shown for this package manager.
    pub fn as_str(&self) -> (r: &'static str)
        ensures
            r@ == match self {
                PackageManager::Apt => "apt"@,
                PackageManager::Cpan => "cpan"@,
                PackageManager::Cran => "cran"@,
                PackageManager::Gem => "gem"@,
                PackageManager::Pip => "pip"@,
            },
    {
        match self {
            PackageManager::Apt => "apt",
            PackageManager::Cpan => "cpan",
            PackageManager::Cran => "cran",
            PackageManager::Gem => "gem",
            PackageManager::Pip => "pip",
        }
    }
}

impl InputOutputClass {
    /// The text shown for this class.
    pub fn as_str(&self) -> (r: &'static str)
        ensures
            r@ == match self {
                InputOutputClass::Applet => "applet"@,
                InputOutputClass::ArrayApplet => "array:applet"@,
                InputOutputClass::ArrayBoolean => "array:boolean"@,
                InputOutputClass::ArrayFile => "array:file"@,
                InputOutputClass::ArrayFloat => "array:float"@,
                InputOutputClass::ArrayInt => "array:int"@,
                InputOutputClass::ArrayRecord => "array:record"@,
                InputOutputClass::ArrayString => "array:string"@,
                InputOutputClass::Boolean => "boolean"@,
                InputOutputClass::File => "file"@,
                InputOutputClass::Float => "float"@,
                InputOutputClass::Hash => "hash"@,
                InputOutputClass::Int => "int"@,
                InputOutputClass::Record => "record"@,
                InputOutputClass::String => "string"@,
            },
    {
        match self {
            InputOutputClass::Applet => "applet",
            InputOutputClass::ArrayApplet => "array:applet",
            InputOutputClass::ArrayBoolean => "array:boolean",
            InputOutputClass::ArrayFile => "array:file",
            InputOutputClass::ArrayFloat => "array:float",
            InputOutputClass::ArrayInt => "array:int",
            InputOutputClass::ArrayRecord => "array:record",
            InputOutputClass::ArrayString => "array:string",
            InputOutputClass::Boolean => "boolean",
            InputOutputClass::File => "file",
            InputOutputClass::Float => "float",
            InputOutputClass::Hash => "hash",
            InputOutputClass::Int => "int",
            InputOutputClass::Record => "record",
            InputOutputClass::String => "string",
        }
    }
}

impl TimeoutUnit {
    /// The text shown for this unit.
    pub fn as_str(&self) -> (r: &'static str)
        ensures
            r@ == match self {
                TimeoutUnit::Minutes => "minutes"@,
                TimeoutUnit::Hours => "hours"@,
                TimeoutUnit::Days => "days"@,
            },
    {
        match self {
            TimeoutUnit::Minutes => "minutes",
            TimeoutUnit::Hours => "hours",
            TimeoutUnit::Days => "days",
        }
    }
}


/// An application's manifest.
#[derive(Debug, Clone)]
pub struct DxApp {
    pub name: Option<String>,
    pub title: String,
    pub dxapi: Option<String>,
    pub summary: Option<String>,
    pub description: Option<String>,
    pub version: Option<String>,
    pub developer_notes: Option<String>,
    pub types: Vec<String>,
    pub categories: Vec<String>,
    pub bill_to: Option<String>,
    pub open_source: Option<bool>,
    pub developers: Vec<String>,
    pub authorized_users: Vec<String>,
    pub input_spec: Vec<InputSpec>,
    pub output_spec: Vec<OutputSpec>,
    pub run_spec: RunSpec,
    pub https_app: Option<HttpsApp>,
    pub access: Option<AccessSpec>,
    pub regional_options: Option<Vec<(String, RegionalOptions)>>,
    pub details: Option<HashMap<String, serde_json::Value>>,
    pub ignore_reuse: Option<bool>,
}

/// An input of an applet.
#[derive(Debug, Clone)]
pub struct InputSpec {
    pub name: String,
    pub label: Option<String>,
    pub class: InputOutputClass,
    pub optional: Option<bool>,
    pub default: Option<serde_json::Value>,
    pub patterns: Vec<String>,
    pub help: Option<String>,
    pub choices: Vec<String>,
    pub input_type: Option<String>,
    pub group: Option<String>,
    pub suggestions: Vec<InputSpecSuggestion>,
}

/// A finding, if there is one, as a sequence of none or one.
pub open spec fn opt_finding(f: Option<Seq<char>>) -> Seq<Seq<char>> {
    match f {
        Some(m) => seq![m],
        None => Seq::empty(),
    }
}

/// What is wrong with an application's manifest: its version, its
/// categories, its release and version, its access, its regional options.
pub open spec fn app_findings(app: DxApp) -> Seq<Seq<char>> {
    opt_finding(version_finding(app.version)) + opt_finding(categories_finding(app.categories@))
        + (if release_version_conflict(app.run_spec) {
        seq!["runSpec.version should be 0 if release is 20.04"@]
    } else {
        Seq::empty()
    }) + match app.access {
        Some(a) => access_findings(a),
        None => Seq::empty(),
    } + match app.regional_options {
        Some(r) => regions_findings(r@),
        None => Seq::empty(),
    }
}

/// Suggests fixes to an application's manifest.
pub fn lint_app(app: &DxApp) -> (r: Vec<String>)
    ensures
        texts(r@) == app_findings(*app),
{
    let mut suggestions: Vec<String> = Vec::new();
    if let Some(s) = lint_version(&app.version) {
        suggestions.push(s);
    }
    let ghost a = texts(suggestions@);
    if let Some(s) = lint_app_categories(app.categories.as_slice()) {
        suggestions.push(s);
    }
    let ghost b = texts(suggestions@);
    if let Some(s) = lint_app_release_version(&app.run_spec) {
        suggestions.push(s);
    }
    let ghost c = texts(suggestions@);
    if let Some(access_spec) = &app.access {
        let mut res = lint_app_access_spec(access_spec);
        suggestions.append(&mut res);
    }
    let ghost d = texts(suggestions@);
    if let Some(regional_options) = &app.regional_options {
        let mut res = lint_app_regional_options(regional_options);
        suggestions.append(&mut res);
    }
    proof {
        assert(a =~= opt_finding(version_finding(app.version)));
        assert(b =~= a + opt_finding(categories_finding(app.categories@)));
        assert(texts(suggestions@) =~= app_findings(*app));
    }
    suggestions
}

} // verus!
