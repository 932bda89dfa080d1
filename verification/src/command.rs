//! Composition of the server's launch command.
//!
//! Given the installer's outcome, the settings object, and the paths the
//! host resolved (working directory and node runtime), `build_command`
//! produces the exact executable path, argument list, and environment that
//! start the wrapped search server — or the error that stops the launch.

use vstd::prelude::*;
use crate::errors::Error;
use crate::paths::{Platform, sanitize_windows_path, spec_sanitize};
use crate::settings::{
    SettingsDoc, parse_settings, spec_api_key, spec_settings_valid,
};
use vstd::string::StringExecFns;

verus! {

/// The npm package whose server this extension launches.
pub fn package_name() -> (r: &'static str)
    ensures
        r@ == spec_package_name(),
{
    "@brave/brave-search-mcp-server"
}

/// The name of the npm package whose server this extension launches.
pub open spec fn spec_package_name() -> Seq<char> {
    "@brave/brave-search-mcp-server"@
}

/// The entry-point path: the sanitized working directory joined with the
/// fixed relative path to the installed package's compiled entry file.
pub open spec fn spec_entry_point(platform: Platform, working_dir: Seq<char>) -> Seq<char> {
    spec_sanitize(platform, working_dir) + "/node_modules/"@ + spec_package_name()
        + "/dist/index.js"@
}

/// Everything needed to spawn the server: executable, arguments in order,
/// and environment variables (keys unique, order irrelevant).
pub struct CommandDescriptor {
    pub executable_path: String,
    pub arguments: Vec<String>,
    pub environment: Vec<(String, String)>,
}

/// What a well-built descriptor holds: the sanitized runtime path as
/// executable; the entry-point path, the transport-selection flag, and the
/// transport mode as arguments; and the API key under its fixed credential
/// variable as the one environment entry.
pub open spec fn spec_command_built(
    cd: CommandDescriptor,
    platform: Platform,
    fields: Seq<(String, crate::settings::SettingsField)>,
    working_dir: Seq<char>,
    runtime_path: Seq<char>,
) -> bool {
    &&& cd.executable_path@ == spec_sanitize(platform, runtime_path)
    &&& cd.arguments@.len() == 3
    &&& cd.arguments@[0]@ == spec_entry_point(platform, working_dir)
    &&& cd.arguments@[1]@ == "--transport"@
    &&& cd.arguments@[2]@ == "stdio"@
    &&& cd.environment@.len() == 1
    &&& cd.environment@[0].0@ == "BRAVE_API_KEY"@
    &&& cd.environment@[0].1@ == spec_api_key(fields)
}

/// Builds the launch command, failing closed.
///
/// `install_result` is the outcome of the installer run and is propagated
/// unchanged on failure; `settings` is the settings object the provider
/// returned, `None` when it had none, which is a missing configuration;
/// `working_dir` and `runtime_path` are the paths the host resolved, both
/// sanitized here. No partial descriptor is ever returned.
pub fn build_command(
    install_result: Result<(), Error>,
    platform: Platform,
    settings: Option<SettingsDoc>,
    working_dir: String,
    runtime_path: String,
) -> (r: Result<CommandDescriptor, Error>)
    ensures
        install_result matches Err(e) ==> r == Result::<CommandDescriptor, Error>::Err(e),
        install_result is Ok ==> (settings is None ==> (r matches Err(
            Error::MissingConfiguration(m),
        ) && m@ == "missing `brave_api_key` setting"@)),
        install_result is Ok ==> (settings matches Some(doc) ==> (!spec_settings_valid(
            doc.fields@,
        ) ==> (r matches Err(Error::InvalidConfiguration(m)) && m@
            == "the `brave_api_key` setting must be a string"@))),
        install_result is Ok ==> (settings matches Some(doc) ==> (spec_settings_valid(doc.fields@)
            ==> (r matches Ok(cd) && spec_command_built(
            cd,
            platform,
            doc.fields@,
            working_dir@,
            runtime_path@,
        )))),
{
    if let Err(e) = install_result {
        return Err(e);
    }
    let doc = match settings {
        Some(doc) => doc,
        None => {
            return Err(Error::MissingConfiguration("missing `brave_api_key` setting".to_owned()));
        },
    };
    let launch_settings = match parse_settings(&doc) {
        Ok(ls) => ls,
        Err(e) => {
            return Err(e);
        },
    };

    let ghost wd: Seq<char> = working_dir@;
    let mut entry = sanitize_windows_path(platform, working_dir);
    entry.append("/node_modules/");
    entry.append(package_name());
    entry.append("/dist/index.js");
    proof {
        assert(entry@ =~= spec_entry_point(platform, wd));
    }

    let executable_path = sanitize_windows_path(platform, runtime_path);

    let mut arguments: Vec<String> = Vec::new();
    arguments.push(entry);
    arguments.push("--transport".to_owned());
    arguments.push("stdio".to_owned());

    let mut environment: Vec<(String, String)> = Vec::new();
    environment.push(("BRAVE_API_KEY".to_owned(), launch_settings.brave_api_key));

    Ok(CommandDescriptor { executable_path, arguments, environment })
}

} // verus!
