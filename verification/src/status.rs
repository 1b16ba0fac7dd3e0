//! The launcher's manifest resolution: which project the program opens
//! and whether it runs sandboxed, decided from what exists on disk, an
//! embedded script, a manifest file and the command line. The host does
//! the looking (file probes, reading, parsing) and hands plain facts in;
//! the precedence among the sources is decided and verified here.

use vstd::prelude::*;

verus! {

/// Marker for the assets embedded in the program; the host looks files
/// up under it.
pub struct Asset;

/// Why no usable manifest was resolved: the manifest file failed to read
/// or parse, or no source offered one.
#[derive(Debug)]
pub enum InfoResult {
    Failure(String),
    Missing,
}

/// The launcher manifest: whether the project runs sandboxed, and its
/// path.
#[derive(Clone, Debug)]
pub struct StatusInfo {
    pub safe: bool,
    pub path: String,
}

impl Default for StatusInfo {
    /// An empty manifest: not sandboxed, empty path.
    fn default() -> (r: StatusInfo)
        ensures
            !r.safe,
            r.path@ == Seq::<char>::empty(),
    {
        StatusInfo { safe: false, path: String::new() }
    }
}

/// One pass over the command line, from argument `i` on: `--no-safe`
/// clears the sandbox flag; `--path` takes the next argument as the
/// project path, and is counted as a pick even when that argument is
/// missing; anything else is ignored. The result is the sandbox flag,
/// the path, and whether any recognized flag was seen.
pub open spec fn scan_arguments(
    args: Seq<String>,
    i: int,
    safe: bool,
    path: Seq<char>,
    picked: bool,
) -> (bool, Seq<char>, bool)
    decreases args.len() - i,
{
    if i < 0 || i >= args.len() {
        (safe, path, picked)
    } else if args[i]@ == "--no-safe"@ {
        scan_arguments(args, i + 1, false, path, true)
    } else if args[i]@ == "--path"@ {
        if i + 1 < args.len() {
            scan_arguments(args, i + 2, safe, args[i + 1]@, true)
        } else {
            scan_arguments(args, i + 1, safe, path, true)
        }
    } else {
        scan_arguments(args, i + 1, safe, path, picked)
    }
}

/// The manifest the command line alone would select, starting from the
/// sandboxed default in the current directory.
pub open spec fn arguments_scan(args: Seq<String>) -> (bool, Seq<char>, bool) {
    scan_arguments(args, 0, true, "."@, false)
}

/// Scans the command line for the launcher's flags.
pub fn from_arguments(args: &Vec<String>) -> (r: (bool, String, bool))
    ensures
        r.0 == arguments_scan(args@).0,
        r.1@ == arguments_scan(args@).1,
        r.2 == arguments_scan(args@).2,
{
    let no_safe_flag: String = "--no-safe".to_owned();
    let path_flag: String = "--path".to_owned();
    let mut safe: bool = true;
    let mut path: String = ".".to_owned();
    let mut picked: bool = false;
    let mut i: usize = 0;
    while i < args.len()
        invariant
            i <= args@.len(),
            no_safe_flag@ == "--no-safe"@,
            path_flag@ == "--path"@,
            scan_arguments(args@, i as int, safe, path@, picked) == arguments_scan(args@),
        decreases args@.len() - i,
    {
        let ghost pre_i = i as int;
        let ghost pre_safe = safe;
        let ghost pre_path = path@;
        let ghost pre_picked = picked;
        let is_no_safe: bool = args[i].eq(&no_safe_flag);
        let is_path: bool = args[i].eq(&path_flag);
        if is_no_safe {
            safe = false;
            picked = true;
            i = i + 1;
        } else if is_path {
            if i + 1 < args.len() {
                path = args[i + 1].clone();
                picked = true;
                i = i + 2;
            } else {
                picked = true;
                i = i + 1;
            }
        } else {
            i = i + 1;
        }
        proof {
            assert(scan_arguments(args@, pre_i, pre_safe, pre_path, pre_picked)
                == scan_arguments(args@, i as int, safe, path@, picked));
        }
    }
    (safe, path, picked)
}

impl StatusInfo {
    /// Resolves the manifest from what the host found: whether the main
    /// script file, the project directory, or the embedded script
    /// exists; the manifest file's parse outcome where the file exists
    /// (`Some(None)` when it exists but would not read or parse); and
    /// the command line. The later sources override the earlier, the
    /// command line strongest — but a manifest file that exists and
    /// cannot be read refuses the launch outright.
    pub fn resolve(
        main_file: bool,
        main_path: bool,
        embed_main: bool,
        info_file: Option<Option<StatusInfo>>,
        args: &Vec<String>,
    ) -> (r: Result<StatusInfo, InfoResult>)
        ensures
            (info_file matches Some(None)) ==> (r matches Err(e) && e matches InfoResult::Failure(
                m,
            ) && m@ == "StatusInfo::new(): Error reading file."@),
            !(info_file matches Some(None)) ==> {
                if arguments_scan(args@).2 {
                    r matches Ok(s) && s.safe == arguments_scan(args@).0 && s.path@
                        == arguments_scan(args@).1
                } else if info_file matches Some(Some(_)) {
                    r matches Ok(s) && (info_file matches Some(Some(f)) && s.safe == f.safe
                        && s.path@ == f.path@)
                } else if embed_main {
                    r matches Ok(s) && s.safe && s.path@ == "."@
                } else if main_path {
                    r matches Ok(s) && s.safe && s.path@ == "main"@
                } else if main_file {
                    r matches Ok(s) && s.safe && s.path@ == "."@
                } else {
                    r matches Err(e) && e is Missing
                }
            },
    {
        let failed: bool = match &info_file {
            Some(None) => true,
            _ => false,
        };
        if failed {
            return Err(InfoResult::Failure("StatusInfo::new(): Error reading file.".to_owned()));
        }
        let scanned = from_arguments(args);
        if scanned.2 {
            return Ok(StatusInfo { safe: scanned.0, path: scanned.1 });
        }
        match info_file {
            Some(Some(info)) => Ok(info),
            _ => {
                if embed_main {
                    Ok(StatusInfo { safe: true, path: ".".to_owned() })
                } else if main_path {
                    Ok(StatusInfo { safe: true, path: "main".to_owned() })
                } else if main_file {
                    Ok(StatusInfo { safe: true, path: ".".to_owned() })
                } else {
                    Err(InfoResult::Missing)
                }
            },
        }
    }
}

} // verus!
