//! Start-up checks: which files the configuration directory must hold, and
//! the verdict on what was found on disk.
use vstd::prelude::*;

verus! {

/// The error of a configuration directory that lacks one of its files.
pub open spec fn missing_config_message() -> Seq<char> {
    "config dir exists but config file not found"@
}

/// Given which of `config/.env`, `config/data.json` and the prompt file
/// `config/奶盖波波糖.md` exist: `Ok` when all three do, else the error.
pub fn config_dir_status(env_exists: bool, data_exists: bool, prompt_exists: bool) -> (r: Result<(), String>)
    ensures
        r is Ok <==> env_exists && data_exists && prompt_exists,
        r matches Err(e) ==> e@ == missing_config_message(),
{
    if env_exists && data_exists && prompt_exists {
        Ok(())
    } else {
        Err(String::from_str("config dir exists but config file not found"))
    }
}

/// The files the configuration directory must hold, in the order they are
/// looked up: `.env`, `data.json` and the prompt `奶盖波波糖.md`.
pub open spec fn config_file_paths() -> Seq<Seq<char>> {
    seq!["config/.env"@, "config/data.json"@, "config/奶盖波波糖.md"@]
}

/// The paths of the files the configuration directory must hold.
pub fn required_config_files() -> (v: Vec<&'static str>)
    ensures
        v@.len() == config_file_paths().len(),
        forall|i: int| 0 <= i < v@.len() ==> #[trigger] v@[i]@ == config_file_paths()[i],
{
    let mut v: Vec<&'static str> = Vec::new();
    v.push("config/.env");
    v.push("config/data.json");
    v.push("config/奶盖波波糖.md");
    v
}

} // verus!
