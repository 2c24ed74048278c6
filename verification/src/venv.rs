//! Planning a Python virtual environment: given the resolved interpreter,
//! its version, and what is known about the destination, decide whether to
//! proceed and compute the exact layout, configuration text and follow-up
//! steps. Probing and carrying the plan out are filesystem work that stays
//! outside.

use vstd::prelude::*;
use vstd::string::{StrSliceExecFns, StringExecFns};

use crate::numfmt::{decimal_u8, spec_decimal};

verus! {

/// Why no environment is created.
#[derive(Debug)]
pub enum VenvError {
    /// The destination directory exists and is not empty.
    DestinationNotEmpty,
}

/// Everything the filesystem steps of one environment creation need: the
/// directories to create, how to install the interpreter, the
/// configuration file text, and which optional steps to run afterwards.
pub struct VenvPlan {
    pub bin_dir: String,
    pub include_dir: String,
    pub site_packages_dir: String,
    pub interpreter_source: String,
    pub interpreter_target: String,
    pub use_symlink: bool,
    pub cfg_path: String,
    pub cfg_contents: String,
    pub upgrade_core: bool,
    pub requirements: Option<String>,
}

/// The index of the last `/` in a text, or -1 when it has none.
pub open spec fn last_slash_index(s: Seq<char>) -> int
    decreases s.len(),
{
    if s.len() == 0 {
        -1
    } else if s[s.len() - 1] == '/' {
        s.len() - 1
    } else {
        last_slash_index(s.drop_last())
    }
}

/// The directory part of a path: the text before its last `/`, or empty
/// when it has none.
pub open spec fn parent_dir(s: Seq<char>) -> Seq<char> {
    if last_slash_index(s) < 0 {
        Seq::empty()
    } else {
        s.subrange(0, last_slash_index(s))
    }
}

proof fn lemma_last_slash_at(s: Seq<char>, k: int)
    requires
        0 <= k < s.len(),
        s[k] == '/',
        forall|j: int| k < j < s.len() ==> s[j] != '/',
    ensures
        last_slash_index(s) == k,
    decreases s.len(),
{
    if k < s.len() - 1 {
        assert(s.drop_last() =~= s.subrange(0, s.len() - 1));
        lemma_last_slash_at(s.drop_last(), k);
    }
}

proof fn lemma_no_slash(s: Seq<char>)
    requires
        forall|j: int| 0 <= j < s.len() ==> s[j] != '/',
    ensures
        last_slash_index(s) == -1,
    decreases s.len(),
{
    if s.len() > 0 {
        assert(s.drop_last() =~= s.subrange(0, s.len() - 1));
        lemma_no_slash(s.drop_last());
    }
}

/// The directory part of a path.
pub fn parent_dir_of(s: &str) -> (r: String)
    ensures
        r@ == parent_dir(s@),
{
    let n = s.unicode_len();
    let mut i: usize = 0;
    let mut last: usize = 0;
    let mut found = false;
    while i < n
        invariant
            n == s@.len(),
            i <= n,
            found ==> last < i && s@[last as int] == '/' && (forall|j: int|
                last < j < i ==> s@[j] != '/'),
            !found ==> forall|j: int| 0 <= j < i ==> s@[j] != '/',
        decreases n - i,
    {
        if s.get_char(i) == '/' {
            last = i;
            found = true;
        }
        i += 1;
    }
    if found {
        proof {
            lemma_last_slash_at(s@, last as int);
        }
        s.substring_char(0, last).to_owned()
    } else {
        proof {
            lemma_no_slash(s@);
        }
        String::new()
    }
}

/// The name of the version-specific directories: `python` followed by
/// `major.minor`.
pub open spec fn spec_python_dir(major: int, minor: int) -> Seq<char> {
    "python"@ + spec_decimal(major) + "."@ + spec_decimal(minor)
}

/// The full `major.minor.micro` version text.
pub open spec fn spec_version_text(major: int, minor: int, micro: int) -> Seq<char> {
    spec_decimal(major) + "."@ + spec_decimal(minor) + "."@ + spec_decimal(micro)
}

/// The text of `pyvenv.cfg`: the interpreter's home directory, no system
/// site packages, and the full version.
pub open spec fn spec_cfg_contents(home: Seq<char>, major: int, minor: int, micro: int) -> Seq<
    char,
> {
    "home = "@ + home + "\ninclude-system-site-packages = false\nversion = "@ + spec_version_text(
        major,
        minor,
        micro,
    ) + "\n"@
}

fn python_dir_name(major: u8, minor: u8) -> (r: String)
    ensures
        r@ == spec_python_dir(major as int, minor as int),
{
    let mut name = "python".to_owned();
    name.append(decimal_u8(major).as_str());
    name.append(".");
    name.append(decimal_u8(minor).as_str());
    proof {
        assert(name@ =~= spec_python_dir(major as int, minor as int));
    }
    name
}

fn version_text(major: u8, minor: u8, micro: u8) -> (r: String)
    ensures
        r@ == spec_version_text(major as int, minor as int, micro as int),
{
    let mut text = decimal_u8(major);
    text.append(".");
    text.append(decimal_u8(minor).as_str());
    text.append(".");
    text.append(decimal_u8(micro).as_str());
    proof {
        assert(text@ =~= spec_version_text(major as int, minor as int, micro as int));
    }
    text
}

/// Decides one environment creation. A destination that exists and is not
/// empty is refused; otherwise the full plan is produced: the `bin`,
/// `pythonX.Y` and `lib/pythonX.Y/site-packages` directories under the
/// destination, the interpreter symlinked (the default) or copied to
/// `bin/python`, the `pyvenv.cfg` text, and the optional pip upgrade and
/// requirements installation.
pub fn create_venv(
    dest: &str,
    interpreter: &str,
    major: u8,
    minor: u8,
    micro: u8,
    dest_exists: bool,
    dest_empty: bool,
    use_copies: bool,
    use_symlinks: bool,
    requirements: Option<String>,
    upgrade_deps: bool,
) -> (r: Result<VenvPlan, VenvError>)
    ensures
        r is Err <==> dest_exists && !dest_empty,
        r matches Ok(p) ==> p.bin_dir@ == dest@ + "/bin"@ && p.include_dir@ == dest@ + "/"@
            + spec_python_dir(major as int, minor as int) && p.site_packages_dir@ == dest@
            + "/lib/"@ + spec_python_dir(major as int, minor as int) + "/site-packages"@
            && p.interpreter_source@ == interpreter@ && p.interpreter_target@ == dest@
            + "/bin/python"@ && p.use_symlink == (use_symlinks || !use_copies) && p.cfg_path@
            == dest@ + "/pyvenv.cfg"@ && p.cfg_contents@ == spec_cfg_contents(
            parent_dir(interpreter@),
            major as int,
            minor as int,
            micro as int,
        ) && p.upgrade_core == upgrade_deps && p.requirements == requirements,
{
    if dest_exists && !dest_empty {
        return Err(VenvError::DestinationNotEmpty);
    }
    let pydir = python_dir_name(major, minor);

    let mut bin_dir = dest.to_owned();
    bin_dir.append("/bin");

    let mut include_dir = dest.to_owned();
    include_dir.append("/");
    include_dir.append(pydir.as_str());

    let mut site_packages_dir = dest.to_owned();
    site_packages_dir.append("/lib/");
    site_packages_dir.append(pydir.as_str());
    site_packages_dir.append("/site-packages");

    let mut interpreter_target = dest.to_owned();
    interpreter_target.append("/bin/python");

    let mut cfg_path = dest.to_owned();
    cfg_path.append("/pyvenv.cfg");

    let home = parent_dir_of(interpreter);
    let version = version_text(major, minor, micro);
    let mut cfg_contents = "home = ".to_owned();
    cfg_contents.append(home.as_str());
    cfg_contents.append("\ninclude-system-site-packages = false\nversion = ");
    cfg_contents.append(version.as_str());
    cfg_contents.append("\n");

    proof {
        assert(include_dir@ =~= dest@ + "/"@ + spec_python_dir(major as int, minor as int));
        assert(site_packages_dir@ =~= dest@ + "/lib/"@ + spec_python_dir(
            major as int,
            minor as int,
        ) + "/site-packages"@);
        assert(cfg_contents@ =~= spec_cfg_contents(
            parent_dir(interpreter@),
            major as int,
            minor as int,
            micro as int,
        ));
    }
    Ok(
        VenvPlan {
            bin_dir,
            include_dir,
            site_packages_dir,
            interpreter_source: interpreter.to_owned(),
            interpreter_target,
            use_symlink: use_symlinks || !use_copies,
            cfg_path,
            cfg_contents,
            upgrade_core: upgrade_deps,
            requirements,
        },
    )
}

} // verus!
