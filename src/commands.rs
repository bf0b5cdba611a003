//! What the commands decide before they call the platform.

use crate::cli::{FindAppsArgs, RmdirArgs};
use crate::env::DxEnvironment;
use crate::location::{container_of, resolve, resolved_path};
use crate::model::{
    AppDescribeField, FindAppsDescribe, FindAppsOptions, FindName, RmdirOptions, RmdirResult,
};
use vstd::prelude::*;

verus! {

/// The SHA-256 digest of the bytes of `s`, as lower-case hex.
pub uninterp spec fn sha256_hex(s: Seq<char>) -> Seq<char>;

/// Relies on `sha256::digest` on text: the SHA-256 digest of its bytes,
/// 32 bytes written as 64 lower-case hex digits.
#[verifier::external_body]
fn token_signature(token: &str) -> (r: String)
    ensures
        r@ == sha256_hex(token@),
        r@.len() == 64,
{
    sha256::digest(token)
}

/// Signing out: the signature of the token to revoke, and the settings to keep,
/// which are the old ones without the token.
pub fn logout(dx_env: &DxEnvironment) -> (r: (String, DxEnvironment))
    ensures
        r.0@ == sha256_hex(dx_env.auth_token@),
        r.1.auth_token@ == Seq::<char>::empty(),
        r.1.auth_token_type@ == Seq::<char>::empty(),
        r.1.apiserver_protocol == dx_env.apiserver_protocol,
        r.1.username == dx_env.username,
        r.1.cli_wd == dx_env.cli_wd,
        r.1.apiserver_host == dx_env.apiserver_host,
        r.1.project_context_id == dx_env.project_context_id,
        r.1.project_context_name == dx_env.project_context_name,
        r.1.apiserver_port == dx_env.apiserver_port,
{
    let signature = token_signature(dx_env.auth_token.as_str());
    let kept = DxEnvironment {
        apiserver_protocol: dx_env.apiserver_protocol.clone(),
        username: dx_env.username.clone(),
        cli_wd: dx_env.cli_wd.clone(),
        apiserver_host: dx_env.apiserver_host.clone(),
        project_context_id: dx_env.project_context_id.clone(),
        project_context_name: dx_env.project_context_name.clone(),
        apiserver_port: dx_env.apiserver_port,
        auth_token_type: String::new(),
        auth_token: String::new(),
    };
    (signature, kept)
}

/// Removing folders: for each path, in order, the container it resolves in and
/// a request that removes the folder it resolves to with all it holds, in as
/// many calls as the platform needs.
pub fn rmdir(dx_env: &DxEnvironment, args: &RmdirArgs) -> (r: Vec<(String, RmdirOptions)>)
    ensures
        r@.len() == args.paths@.len(),
        forall|i: int|
            0 <= i < r@.len() ==> {
                let (project, options) = #[trigger] r@[i];
                &&& project@ == container_of(dx_env.project_context_id@, args.paths@[i]@)
                &&& options.folder@ == resolved_path(dx_env.cli_wd@, args.paths@[i]@)
                &&& options.recurse == Some(true)
                &&& options.force == None::<bool>
                &&& options.partial == Some(true)
            },
{
    let mut out: Vec<(String, RmdirOptions)> = Vec::new();
    let mut i: usize = 0;
    while i < args.paths.len()
        invariant
            i <= args.paths@.len(),
            out@.len() == i,
            forall|j: int|
                0 <= j < i ==> {
                    let (project, options) = #[trigger] out@[j];
                    &&& project@ == container_of(dx_env.project_context_id@, args.paths@[j]@)
                    &&& options.folder@ == resolved_path(dx_env.cli_wd@, args.paths@[j]@)
                    &&& options.recurse == Some(true)
                    &&& options.force == None::<bool>
                    &&& options.partial == Some(true)
                },
        decreases args.paths@.len() - i,
    {
        let dest = resolve(
            dx_env.project_context_id.as_str(),
            dx_env.cli_wd.as_str(),
            args.paths[i].as_str(),
        );
        let options = RmdirOptions {
            folder: dest.path,
            recurse: Some(true),
            force: None,
            partial: Some(true),
        };
        out.push((dest.project_id, options));
        i = i + 1;
    }
    out
}

/// Whether a folder removal is over: only an answer that says it is not
/// finished asks for another call.
pub fn removal_finished(res: &RmdirResult) -> (r: bool)
    ensures
        r == (res.completed != Some(false)),
{
    match res.completed {
        Some(done) => done,
        None => true,
    }
}

/// The criteria of an application search: the name as a regular expression
/// if one is given, else every name; each application described by its name.
/// The search starts without a cursor.
pub fn find_apps(args: &FindAppsArgs) -> (r: FindAppsOptions)
    ensures
        match args.name {
            Some(n) => r.name matches Some(FindName::Regexp(p)) && p == n,
            None => r.name matches Some(FindName::Glob(p)) && p@ == "*"@,
        },
        r.category is None,
        r.all_versions is None,
        r.published is None,
        r.bill_to@.len() == 0,
        r.created_by is None,
        r.developer is None,
        r.authorized_user is None,
        r.starting is None,
        r.limit is None,
        r.describe matches Some(d) && d.fields@ == seq![(AppDescribeField::Name, true)],
{
    let fields: Vec<(AppDescribeField, bool)> = vec![(AppDescribeField::Name, true)];
    let name = match &args.name {
        Some(n) => FindName::Regexp(n.clone()),
        None => FindName::Glob(String::from_str("*")),
    };
    FindAppsOptions {
        name: Some(name),
        category: None,
        all_versions: None,
        published: None,
        bill_to: Vec::new(),
        created_by: None,
        developer: None,
        authorized_user: None,
        starting: None,
        limit: None,
        describe: Some(FindAppsDescribe { fields }),
    }
}

} // verus!
