use dxrs::download::{
    choose_file, download_target, local_folder, may_download_folder, may_write, names_folder,
    FileChoice,
};
use dxrs::error::DxError;
use dxrs::objects::{get_describe_object_type, DescribeObject};

#[test]
fn identifiers_are_classified() {
    assert_eq!(
        get_describe_object_type("analysis-GFfkqz0054JJG8p1GBpv7qGX"),
        Some(DescribeObject::Analysis { analysis_id: "analysis-GFfkqz0054JJG8p1GBpv7qGX".to_string() })
    );
    assert_eq!(
        get_describe_object_type("project-GYgj4800jZ5YqgZ24ZzJpZvq"),
        Some(DescribeObject::Project { project_id: "project-GYgj4800jZ5YqgZ24ZzJpZvq".to_string() })
    );
    assert_eq!(
        get_describe_object_type("file-GFfbj0Q054J4ypqJ8vQjF4V7"),
        Some(DescribeObject::File { project_id: None, file_id: "file-GFfbj0Q054J4ypqJ8vQjF4V7".to_string() })
    );
    assert_eq!(
        get_describe_object_type("project-GYgj4800jZ5YqgZ24ZzJpZvq:record-GZ6vQPj0b5pJfbQ3XffQB1BJ"),
        Some(DescribeObject::Record {
            project_id: Some("project-GYgj4800jZ5YqgZ24ZzJpZvq".to_string()),
            record_id: "record-GZ6vQPj0b5pJfbQ3XffQB1BJ".to_string(),
        })
    );
    assert_eq!(
        get_describe_object_type("applet-GZ2BF8Q0jZ5qj3bQBX5BFjjZ"),
        Some(DescribeObject::Applet { project_id: None, applet_id: "applet-GZ2BF8Q0jZ5qj3bQBX5BFjjZ".to_string() })
    );
    assert_eq!(
        get_describe_object_type("app-GJzjbP00vyjyXPpkFv7bxf1F"),
        Some(DescribeObject::App { app_id: "app-GJzjbP00vyjyXPpkFv7bxf1F".to_string() })
    );
    assert_eq!(
        get_describe_object_type("container-GJzjbP008QGyXPpkFv7bxf1G"),
        Some(DescribeObject::Container { container_id: "container-GJzjbP008QGyXPpkFv7bxf1G".to_string() })
    );
    assert_eq!(
        get_describe_object_type("job-GFfkqz0054JJG8p1GBpv7qGb"),
        Some(DescribeObject::Job { job_id: "job-GFfkqz0054JJG8p1GBpv7qGb".to_string() })
    );
    assert_eq!(
        get_describe_object_type("database-GZ6vP1801xf4fXjB3YVX011f"),
        Some(DescribeObject::Database { project_id: None, database_id: "database-GZ6vP1801xf4fXjB3YVX011f".to_string() })
    );
}

#[test]
fn non_identifiers_are_not_classified() {
    for s in [
        "",
        "file-short",
        "file-GFfbj0Q054J4ypqJ8vQjF4V7x",
        "/data/file-GFfbj0Q054J4ypqJ8vQjF4V7",
        "project-GYgj4800jZ5YqgZ24ZzJpZvq:job-GFfkqz0054JJG8p1GBpv7qGb",
        "user-GFfkqz0054JJG8p1GBpv7qGb",
    ] {
        assert_eq!(get_describe_object_type(s), None, "{s}");
    }
}

#[test]
fn error_messages() {
    let e = DxError::RemoteRejected {
        error_type: "ResourceNotFound".to_string(),
        message: "no such file".to_string(),
    };
    assert_eq!(e.message(), "ResourceNotFound: no such file");
    assert_eq!(DxError::TransportFailure("reset".to_string()).message(), "reset");
    assert_eq!(DxError::EmptySource.message(), "Source is empty");
    assert_eq!(DxError::IncompleteSession.message(), "Upload was not closed");
    assert_eq!(
        DxError::AddressingAmbiguous.message(),
        "Location is neither an identifier nor a known path"
    );
}

#[test]
fn download_targets() {
    let id = "file-GFfbj0Q054J4ypqJ8vQjF4V7";
    assert_eq!(download_target("out", &None, &Some("a.txt".to_string()), id), "out/a.txt");
    assert_eq!(download_target("out/", &None, &None, id), format!("out/{id}"));
    assert_eq!(download_target("out", &Some("b.txt".to_string()), &Some("a.txt".to_string()), id), "out/b.txt");
    assert_eq!(download_target("out", &Some("-".to_string()), &None, id), "-");
    assert_eq!(download_target("out", &Some("/tmp/c".to_string()), &None, id), "/tmp/c");
    // a file named "-" is a file, not standard output
    assert_eq!(download_target("out", &None, &Some("-".to_string()), id), "out/-");
}

#[test]
fn overwrite_needs_force() {
    assert_eq!(may_write("x", true, false), Err("Use force to overwrite \"x\"".to_string()));
    assert_eq!(may_write("x", true, true), Ok(()));
    assert_eq!(may_write("x", false, false), Ok(()));
    assert_eq!(may_write("-", true, false), Ok(()));
}

#[test]
fn folder_downloads() {
    assert_eq!(local_folder("out", "/a/b"), "out/a/b");
    assert_eq!(local_folder("out/", "a"), "out/a");
    assert_eq!(local_folder(".", "/"), "./");
    assert_eq!(may_download_folder(true), Ok(()));
    assert_eq!(
        may_download_folder(false),
        Err("Use recursive flag to download diretory".to_string())
    );
}

#[test]
fn folder_and_file_choices() {
    let folders = vec!["/a".to_string(), "/a/b".to_string()];
    assert!(names_folder(&folders, "/a/b"));
    assert!(!names_folder(&folders, "/a/c"));
    assert!(!names_folder(&vec![], "/"));
    assert_eq!(choose_file(&vec![]), FileChoice::Nothing);
    assert_eq!(choose_file(&vec!["file-1".to_string()]), FileChoice::One("file-1".to_string()));
    assert_eq!(choose_file(&vec!["f1".to_string(), "f2".to_string()]), FileChoice::Ask);
}
