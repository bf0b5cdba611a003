use dxrs::env::DxEnvironment;
use dxrs::location::{
    is_file_or_path, join_path, lookup_folder_and_name, parse_project_path, resolve, resolve_path,
    DxPath, FileOrPath,
    ProjectPath,
};

fn env_with(project: &str, wd: &str) -> DxEnvironment {
    DxEnvironment {
        apiserver_protocol: "".to_string(),
        username: "".to_string(),
        cli_wd: wd.to_string(),
        apiserver_host: "".to_string(),
        project_context_id: project.to_string(),
        project_context_name: "test".to_string(),
        apiserver_port: 20,
        auth_token_type: "".to_string(),
        auth_token: "".to_string(),
    }
}

#[test]
fn test_resolve_path() {
    let project_id1 = "project-GbxZVz8071x9yvpXgxV4gVjK".to_string();
    let project_id2 = "project-Gbxgky00Z4Y2kf4K204x8V26".to_string();

    let dx_env1 = DxEnvironment {
        apiserver_protocol: "".to_string(),
        username: "".to_string(),
        cli_wd: "/".to_string(),
        apiserver_host: "".to_string(),
        project_context_id: project_id1.clone(),
        project_context_name: "test".to_string(),
        apiserver_port: 20,
        auth_token_type: "".to_string(),
        auth_token: "".to_string(),
    };

    let res = resolve_path(&dx_env1, "/");
    assert!(res.is_ok());
    assert_eq!(
        res.unwrap(),
        DxPath { path: "/".to_string(), project_id: project_id1.clone() }
    );

    let res = resolve_path(&dx_env1, "");
    assert!(res.is_ok());
    assert_eq!(
        res.unwrap(),
        DxPath { path: "/".to_string(), project_id: project_id1.clone() }
    );

    let res = resolve_path(&dx_env1, ":");
    assert!(res.is_ok());
    assert_eq!(
        res.unwrap(),
        DxPath { path: "/".to_string(), project_id: project_id1.clone() }
    );

    let res = resolve_path(&dx_env1, "file-Gbxj0k006jzv14J9J4Yp4vgG");
    assert!(res.is_ok());
    assert_eq!(
        res.unwrap(),
        DxPath {
            path: "file-Gbxj0k006jzv14J9J4Yp4vgG".to_string(),
            project_id: project_id1.clone(),
        }
    );

    let res = resolve_path(
        &dx_env1,
        &format!("{project_id2}:file-Gbxj0k006jzv14J9J4Yp4vgG"),
    );
    assert!(res.is_ok());
    assert_eq!(
        res.unwrap(),
        DxPath {
            path: "file-Gbxj0k006jzv14J9J4Yp4vgG".to_string(),
            project_id: project_id2.clone(),
        }
    );

    let res = resolve_path(&dx_env1, ":/foo");
    assert!(res.is_ok());
    assert_eq!(
        res.unwrap(),
        DxPath { path: "/foo".to_string(), project_id: project_id1.clone() }
    );

    let res = resolve_path(&dx_env1, &format!("{project_id2}:/foo"));
    assert!(res.is_ok());
    assert_eq!(
        res.unwrap(),
        DxPath { path: "/foo".to_string(), project_id: project_id2.clone() }
    );

    let res = resolve_path(&dx_env1, &project_id2);
    assert!(res.is_ok());
    assert_eq!(
        res.unwrap(),
        DxPath { path: "/".to_string(), project_id: project_id2.clone() }
    );

    let res = resolve_path(&dx_env1, &format!("{project_id2}:"));
    assert!(res.is_ok());
    assert_eq!(
        res.unwrap(),
        DxPath { path: "/".to_string(), project_id: project_id2.clone() }
    );

    let dx_env2 = DxEnvironment {
        apiserver_protocol: "".to_string(),
        username: "".to_string(),
        cli_wd: "/foo/bar".to_string(),
        apiserver_host: "".to_string(),
        project_context_id: project_id2.clone(),
        project_context_name: "test".to_string(),
        apiserver_port: 20,
        auth_token_type: "".to_string(),
        auth_token: "".to_string(),
    };

    let res = resolve_path(&dx_env2, "");
    assert!(res.is_ok());
    assert_eq!(
        res.unwrap(),
        DxPath { path: "/foo/bar".to_string(), project_id: project_id2.clone() }
    );

    let res = resolve_path(&dx_env2, "baz.txt");
    assert!(res.is_ok());
    assert_eq!(
        res.unwrap(),
        DxPath {
            path: "/foo/bar/baz.txt".to_string(),
            project_id: project_id2.clone(),
        }
    );

    let res = resolve_path(&dx_env2, &format!("{project_id2}:baz.txt"));
    assert!(res.is_ok());
    assert_eq!(
        res.unwrap(),
        DxPath {
            path: "/foo/bar/baz.txt".to_string(),
            project_id: project_id2.clone(),
        }
    );

    let res = resolve_path(&dx_env2, &format!("{project_id1}:/baz.txt"));
    assert!(res.is_ok());
    assert_eq!(
        res.unwrap(),
        DxPath { path: "/baz.txt".to_string(), project_id: project_id1.clone() }
    );

    let res = resolve_path(&dx_env2, "file-Gbxj0k006jzv14J9J4Yp4vgG");
    assert!(res.is_ok());
    assert_eq!(
        res.unwrap(),
        DxPath {
            path: "file-Gbxj0k006jzv14J9J4Yp4vgG".to_string(),
            project_id: project_id2.clone(),
        }
    );
}

#[test]
fn test_parse_project_path() {
    let dx_env = DxEnvironment {
        apiserver_protocol: "https".to_string(),
        username: "test_user".to_string(),
        cli_wd: "/foo".to_string(),
        apiserver_host: "api.dnanexus.com".to_string(),
        project_context_id: "project-GXY0PK0071xJpG156BFyXpJF".to_string(),
        project_context_name: "test".to_string(),
        apiserver_port: 443,
        auth_token_type: "Bearer".to_string(),
        auth_token: "XXXX".to_string(),
    };

    assert_eq!(
        parse_project_path(&dx_env, &None),
        ProjectPath {
            project_id: "project-GXY0PK0071xJpG156BFyXpJF".to_string(),
            path: "/foo".to_string()
        }
    );

    assert_eq!(
        parse_project_path(&dx_env, &Some("/".to_string())),
        ProjectPath {
            project_id: "project-GXY0PK0071xJpG156BFyXpJF".to_string(),
            path: "/".to_string()
        }
    );

    assert_eq!(
        parse_project_path(&dx_env, &Some("project-GYgj4800jZ5YqgZ24ZzJpZvq".to_string())),
        ProjectPath {
            project_id: "project-GYgj4800jZ5YqgZ24ZzJpZvq".to_string(),
            path: "/".to_string()
        }
    );

    assert_eq!(
        parse_project_path(&dx_env, &Some("project-GYgj4800jZ5YqgZ24ZzJpZvq:/".to_string())),
        ProjectPath {
            project_id: "project-GYgj4800jZ5YqgZ24ZzJpZvq".to_string(),
            path: "/".to_string()
        }
    );

    assert_eq!(
        parse_project_path(&dx_env, &Some("project-GYgj4800jZ5YqgZ24ZzJpZvq:/bar".to_string())),
        ProjectPath {
            project_id: "project-GYgj4800jZ5YqgZ24ZzJpZvq".to_string(),
            path: "/bar".to_string()
        }
    );
}

#[test]
fn resolve_keeps_default_container_without_prefix() {
    for input in ["", ":", "a/b", "/x", "file-Gbxj0k006jzv14J9J4Yp4vgG", "project-short:/x"] {
        let r = resolve("project-BBBBBBBBBBBBBBBBBBBBBBBB", "/w", input);
        assert_eq!(r.project_id, "project-BBBBBBBBBBBBBBBBBBBBBBBB");
    }
}

#[test]
fn resolve_identifier_is_never_joined() {
    for wd in ["/", "/foo/bar", "rel"] {
        let r = resolve("project-BBBBBBBBBBBBBBBBBBBBBBBB", wd, "file-AAAAAAAAAAAAAAAAAAAAAAAA");
        assert_eq!(r.path, "file-AAAAAAAAAAAAAAAAAAAAAAAA");
    }
}

#[test]
fn resolve_relative_is_joined() {
    let r = resolve("project-BBBBBBBBBBBBBBBBBBBBBBBB", "/foo", "a/b.txt");
    assert_eq!(r.path, join_path("/foo", "a/b.txt"));
    assert_eq!(r.path, "/foo/a/b.txt");
    let r = resolve("project-BBBBBBBBBBBBBBBBBBBBBBBB", "/foo/", "a");
    assert_eq!(r.path, "/foo/a");
    let r = resolve("project-BBBBBBBBBBBBBBBBBBBBBBBB", "/", "../x");
    assert_eq!(r.path, "/../x");
    // a file identifier one character short is a relative path
    let r = resolve("project-BBBBBBBBBBBBBBBBBBBBBBBB", "/w", "file-AAAAAAAAAAAAAAAAAAAAAAA");
    assert_eq!(r.path, "/w/file-AAAAAAAAAAAAAAAAAAAAAAA");
}

#[test]
fn resolve_empty_and_colon_give_working_path() {
    let c = "project-BBBBBBBBBBBBBBBBBBBBBBBB";
    assert_eq!(resolve(c, "/foo/bar", "").path, "/foo/bar");
    assert_eq!(resolve(c, "/foo/bar", ":").path, "/foo/bar");
}

#[test]
fn resolve_explicit_container_and_absolute_path() {
    let r = resolve(
        "project-BBBBBBBBBBBBBBBBBBBBBBBB",
        "/other",
        "project-AAAAAAAAAAAAAAAAAAAAAAAA:/x/y.txt",
    );
    assert_eq!(
        r,
        DxPath {
            path: "/x/y.txt".to_string(),
            project_id: "project-AAAAAAAAAAAAAAAAAAAAAAAA".to_string(),
        }
    );
}

#[test]
fn resolve_strips_one_colon_after_container() {
    let r = resolve("project-BBBBBBBBBBBBBBBBBBBBBBBB", "/w", "project-AAAAAAAAAAAAAAAAAAAAAAAA::x");
    assert_eq!(r.project_id, "project-AAAAAAAAAAAAAAAAAAAAAAAA");
    assert_eq!(r.path, "/w/x");
}

#[test]
fn classify_file_and_path() {
    let env = env_with("project-BBBBBBBBBBBBBBBBBBBBBBBB", "/w");
    assert_eq!(
        is_file_or_path(&env, "project-AAAAAAAAAAAAAAAAAAAAAAAA:file-CCCCCCCCCCCCCCCCCCCCCCCC").unwrap(),
        FileOrPath::File {
            file_id: "file-CCCCCCCCCCCCCCCCCCCCCCCC".to_string(),
            project_id: "project-AAAAAAAAAAAAAAAAAAAAAAAA".to_string(),
        }
    );
    assert_eq!(
        is_file_or_path(&env, "data/x.txt").unwrap(),
        FileOrPath::Path {
            path: "/w/data/x.txt".to_string(),
            project_id: "project-BBBBBBBBBBBBBBBBBBBBBBBB".to_string(),
        }
    );
    assert_eq!(
        is_file_or_path(&env, "").unwrap(),
        FileOrPath::Path {
            path: "/w".to_string(),
            project_id: "project-BBBBBBBBBBBBBBBBBBBBBBBB".to_string(),
        }
    );
}

#[test]
fn parse_project_path_roots_relative_folders() {
    let env = env_with("project-BBBBBBBBBBBBBBBBBBBBBBBB", "/w");
    assert_eq!(
        parse_project_path(&env, &Some("data".to_string())).path,
        "/data"
    );
    assert_eq!(
        parse_project_path(&env, &Some(":data".to_string())).path,
        "/data"
    );
    // the two readings differ on a container followed by nothing
    let r = resolve_path(&env, "project-AAAAAAAAAAAAAAAAAAAAAAAA:").unwrap();
    assert_eq!(r.path, "/w");
    let p = parse_project_path(&env, &Some("project-AAAAAAAAAAAAAAAAAAAAAAAA:".to_string()));
    assert_eq!(p.path, "/");
}

#[test]
fn lookup_keys_split_paths() {
    let key = |p: &str| lookup_folder_and_name(p);
    assert_eq!(key("/a/b/c.txt"), ("/a/b".to_string(), "c.txt".to_string()));
    assert_eq!(key("/c.txt"), ("/".to_string(), "c.txt".to_string()));
    assert_eq!(key("c.txt"), ("".to_string(), "c.txt".to_string()));
    assert_eq!(key("/"), ("/".to_string(), "/".to_string()));
    assert_eq!(key("/a/b/"), ("/a".to_string(), "b".to_string()));
    assert_eq!(key("/a//b"), ("/a".to_string(), "b".to_string()));
    assert_eq!(key("//b"), ("/".to_string(), "b".to_string()));
    assert_eq!(key("/a/.."), ("/a".to_string(), "/a/..".to_string()));
    assert_eq!(key("a/"), ("".to_string(), "a".to_string()));
    assert_eq!(
        key("file-GFfbj0Q054J4ypqJ8vQjF4V7"),
        ("/".to_string(), "file-GFfbj0Q054J4ypqJ8vQjF4V7".to_string())
    );
}
