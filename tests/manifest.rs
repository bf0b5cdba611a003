use dxrs::manifest::{
    lint_app_access_spec, lint_app_categories, lint_app_cluster_spec, lint_app_regional_options,
    lint_app, lint_app_release_version, lint_app_system_requirements, lint_asset, lint_version,
    AccessSpec,
    ClusterSpec, DxApp, DxAsset, InputOutputClass, Interpreter, LinuxDistribution, LinuxRelease,
    LinuxVersion, PackageManager, RegionalOptions, RunSpec, SystemRequirements, TimeoutUnit,
};

#[test]
fn test_lint_app_categories() {
    assert!(lint_app_categories(&["Annotation".to_string()]).is_none());

    let res = lint_app_categories(&["Bad".to_string()]);
    assert!(res.is_some());
    assert_eq!(res.unwrap(), "Invalid category: Bad");

    let res = lint_app_categories(&["Bad1".to_string(), "Bad2".to_string()]);
    assert!(res.is_some());
    assert_eq!(res.unwrap(), "Invalid categories: Bad1, Bad2");
}

#[test]
fn test_lint_app_release_version() {
    let run_spec1 = RunSpec {
        interpreter: Some(Interpreter::Python3),
        file: Some("run.sh".to_string()),
        distribution: LinuxDistribution::Ubuntu,
        release: Some(LinuxRelease::V16_04),
        version: Some(LinuxVersion::V0),
        code: None,
        head_job_on_demand: None,
        restartable_entry_points: None,
        asset_depends: None,
        exec_depends: vec![],
        timeout_policy: None,
    };

    assert!(lint_app_release_version(&run_spec1).is_none());

    let run_spec2 = RunSpec { version: Some(LinuxVersion::V1), ..run_spec1 };

    assert!(lint_app_release_version(&run_spec2).is_none());

    let run_spec3 = RunSpec {
        release: Some(LinuxRelease::V20_04),
        version: Some(LinuxVersion::V0),
        ..run_spec2
    };

    assert!(lint_app_release_version(&run_spec3).is_none());

    let run_spec4 = RunSpec {
        release: Some(LinuxRelease::V20_04),
        version: Some(LinuxVersion::V1),
        ..run_spec3
    };

    let res = lint_app_release_version(&run_spec4);
    assert!(res.is_some());
    assert_eq!(
        res.unwrap(),
        "runSpec.version should be 0 if release is 20.04".to_string()
    );
}

#[test]
fn test_lint_app_access_spec() {
    let access_spec1 = AccessSpec {
        network: vec![],
        project: Some("VIEW".to_string()),
        all_projects: Some("ADMINISTER".to_string()),
        developer: None,
        project_creation: None,
    };

    assert!(lint_app_access_spec(&access_spec1).is_empty());

    let access_spec2 = AccessSpec { project: Some("BAD".to_string()), ..access_spec1 };

    let res = lint_app_access_spec(&access_spec2);

    assert!(!res.is_empty());
    assert_eq!(res, ["Invalid project access \"BAD\"".to_string()]);

    let access_spec3 = AccessSpec {
        project: Some("UPLOAD".to_string()),
        all_projects: Some("BAD".to_string()),
        ..access_spec2
    };

    let res = lint_app_access_spec(&access_spec3);

    assert!(!res.is_empty());
    assert_eq!(res, ["Invalid allProjects access \"BAD\"".to_string()]);
}

#[test]
fn test_lint_app_regional_options() {
    let req = SystemRequirements { instance_type: "mem1_ssd1_x2".to_string(), cluster_spec: None };

    let opt = RegionalOptions {
        resources: None,
        system_requirements: vec![("*".to_string(), req)],
    };

    let res = lint_app_regional_options(&vec![("aws:us-east-1".to_string(), opt)]);
    assert!(res.is_empty());

    let req = SystemRequirements { instance_type: "mem1_ssd1_x2".to_string(), cluster_spec: None };

    let opt = RegionalOptions {
        resources: None,
        system_requirements: vec![("*".to_string(), req)],
    };

    let res = lint_app_regional_options(&vec![("BAD".to_string(), opt)]);
    assert!(!res.is_empty());
    assert_eq!(res, ["Invalid region \"BAD\"".to_string()]);
}

#[test]
fn test_lint_app_system_requirements() {
    let req1 = SystemRequirements { instance_type: "mem1_ssd1_x2".to_string(), cluster_spec: None };

    let res = lint_app_system_requirements(&vec![("*".to_string(), req1)]);

    assert!(res.is_empty());

    let req2 = SystemRequirements { instance_type: "BAD".to_string(), cluster_spec: None };

    let res = lint_app_system_requirements(&vec![("*".to_string(), req2)]);

    assert!(!res.is_empty());
    assert_eq!(res, ["Invalid instance type \"BAD\""]);
}

#[test]
fn test_lint_app_cluster_spec() {
    let spec1 = ClusterSpec {
        cluster_type: "generic".to_string(),
        version: "2.4.4".to_string(),
        initial_instance_count: 1,
        ports: "".to_string(),
        bootstrap_script: "".to_string(),
    };

    assert!(lint_app_cluster_spec(&spec1).is_empty());

    let spec2 = ClusterSpec { cluster_type: "BAD".to_string(), ..spec1 };

    let res = lint_app_cluster_spec(&spec2);
    assert!(!res.is_empty());
    assert_eq!(res, ["Invalid cluster spec type \"BAD\""]);

    let spec3 = ClusterSpec {
        cluster_type: "dxspark".to_string(),
        version: "BAD".to_string(),
        ..spec2
    };

    let res = lint_app_cluster_spec(&spec3);
    assert!(!res.is_empty());
    assert_eq!(res, ["Invalid cluster spec version \"BAD\""]);

    let spec4 = ClusterSpec {
        initial_instance_count: 0,
        version: "3.2.0".to_string(),
        ..spec3
    };

    let res = lint_app_cluster_spec(&spec4);
    assert!(!res.is_empty());
    assert_eq!(res, ["initialInstanceCount should be greater than zero"]);
}

#[test]
fn cluster_spec_reports_every_problem_in_order() {
    let spec = ClusterSpec {
        cluster_type: "T".to_string(),
        version: "V".to_string(),
        initial_instance_count: 0,
        ports: "".to_string(),
        bootstrap_script: "".to_string(),
    };
    assert_eq!(
        lint_app_cluster_spec(&spec),
        [
            "initialInstanceCount should be greater than zero",
            "Invalid cluster spec version \"V\"",
            "Invalid cluster spec type \"T\"",
        ]
    );
}

#[test]
fn regional_options_include_nested_findings() {
    let bad_cluster = ClusterSpec {
        cluster_type: "generic".to_string(),
        version: "9".to_string(),
        initial_instance_count: 1,
        ports: "".to_string(),
        bootstrap_script: "".to_string(),
    };
    let req = SystemRequirements {
        instance_type: "nope".to_string(),
        cluster_spec: Some(bad_cluster),
    };
    let opt = RegionalOptions { resources: None, system_requirements: vec![("main".to_string(), req)] };
    let res = lint_app_regional_options(&vec![("mars".to_string(), opt)]);
    assert_eq!(
        res,
        [
            "Invalid region \"mars\"",
            "Invalid instance type \"nope\"",
            "Invalid cluster spec version \"9\"",
        ]
    );
}

#[test]
fn categories_keep_order_of_bad_ones() {
    let res = lint_app_categories(&[
        "X".to_string(),
        "Reports".to_string(),
        "Y".to_string(),
        "Z".to_string(),
    ]);
    assert_eq!(res.unwrap(), "Invalid categories: X, Y, Z");
    assert!(lint_app_categories(&[]).is_none());
}

#[test]
fn version_must_be_three_numbers() {
    assert_eq!(lint_version(&None), None);
    assert_eq!(lint_version(&Some("1.2.3".to_string())), None);
    assert_eq!(lint_version(&Some("10.0.123".to_string())), None);
    for bad in ["1.2", "1.2.3.4", ".1.2", "1..2", "1.2.", "a.b.c", "", "1.2.3-beta"] {
        assert_eq!(
            lint_version(&Some(bad.to_string())),
            Some(format!("Version \"{bad}\" should be SemVar"))
        );
    }
}

#[test]
fn asset_lint_checks_version() {
    let asset = DxAsset {
        name: None,
        title: "t".to_string(),
        description: None,
        version: Some("0.1".to_string()),
        distribution: LinuxDistribution::Ubuntu,
        release: None,
        exec_depends: vec![],
    };
    assert_eq!(lint_asset(&asset), ["Version \"0.1\" should be SemVar"]);
    let ok = DxAsset { version: Some("0.1.0".to_string()), ..asset };
    assert!(lint_asset(&ok).is_empty());
}

#[test]
fn wdl_class_names() {
    assert_eq!(InputOutputClass::ArrayFile.wdl_class(), "Array[File]");
    assert_eq!(InputOutputClass::Int.wdl_class(), "Int");
    assert_eq!(InputOutputClass::String.wdl_class(), "String");
}

fn minimal_app() -> DxApp {
    DxApp {
        name: Some("app".to_string()),
        title: "App".to_string(),
        dxapi: None,
        summary: None,
        description: None,
        version: Some("1.0.0".to_string()),
        developer_notes: None,
        types: vec![],
        categories: vec![],
        bill_to: None,
        open_source: None,
        developers: vec![],
        authorized_users: vec![],
        input_spec: vec![],
        output_spec: vec![],
        run_spec: RunSpec {
            interpreter: Some(Interpreter::Bash),
            file: None,
            distribution: LinuxDistribution::Ubuntu,
            release: Some(LinuxRelease::V20_04),
            version: Some(LinuxVersion::V0),
            code: None,
            head_job_on_demand: None,
            restartable_entry_points: None,
            asset_depends: None,
            exec_depends: vec![],
            timeout_policy: None,
        },
        https_app: None,
        access: None,
        regional_options: None,
        details: None,
        ignore_reuse: None,
    }
}

#[test]
fn app_lint_collects_all_findings_in_order() {
    assert!(lint_app(&minimal_app()).is_empty());
    let mut app = minimal_app();
    app.version = Some("v1".to_string());
    app.categories = vec!["Nope".to_string()];
    app.run_spec.version = Some(LinuxVersion::V1);
    app.access = Some(AccessSpec {
        network: vec![],
        project: Some("ALL".to_string()),
        all_projects: None,
        developer: None,
        project_creation: None,
    });
    app.regional_options = Some(vec![(
        "moon".to_string(),
        RegionalOptions { resources: None, system_requirements: vec![] },
    )]);
    assert_eq!(
        lint_app(&app),
        [
            "Version \"v1\" should be SemVar",
            "Invalid category: Nope",
            "runSpec.version should be 0 if release is 20.04",
            "Invalid project access \"ALL\"",
            "Invalid region \"moon\"",
        ]
    );
}

#[test]
fn enum_texts() {
    assert_eq!(InputOutputClass::ArrayString.as_str(), "array:string");
    assert_eq!(Interpreter::Python27.as_str(), "python2.7");
    assert_eq!(LinuxRelease::V16_04.as_str(), "16.04");
    assert_eq!(PackageManager::Cran.as_str(), "cran");
    assert_eq!(TimeoutUnit::Hours.as_str(), "hours");
    assert_eq!(dxrs::cli::AccessLevel::Contribute.as_str(), "CONTRIBUTE");
    assert_eq!(dxrs::model::ArchivalState::Unarchiving.as_str(), "unarchiving");
    assert_eq!(dxrs::model::ObjectState::Closed.as_str(), "closed");
}

#[test]
fn version_digits_are_unicode_decimal_digits() {
    assert_eq!(lint_version(&Some("\u{661}.\u{662}.\u{663}".to_string())), None);
    assert_eq!(lint_version(&Some("\u{966}.1.\u{9e7}".to_string())), None);
    assert_eq!(
        lint_version(&Some("\u{bd}.1.2".to_string())),
        Some("Version \"\u{bd}.1.2\" should be SemVar".to_string())
    );
}
