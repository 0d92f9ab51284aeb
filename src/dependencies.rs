//! Presence of the external programs that downloads need.
use vstd::prelude::*;

use crate::error::YtrsError;

verus! {

/// Relies on `which::which`: whether an executable of this name is found on
/// the search path. The answer depends on the environment and the file
/// system, so nothing is promised of it.
#[verifier::external_body]
fn is_installed(cmd: &str) -> (r: bool) {
    which::which(cmd).is_ok()
}

/// The outcome of a dependency check, given for each command whether it was found.
pub open spec fn dependency_check(cmds: Seq<Seq<char>>, found: Seq<bool>) -> Result<(), Seq<char>>
    decreases cmds.len(),
{
    if cmds.len() == 0 || found.len() == 0 {
        Ok(())
    } else if !found[0] {
        Err(cmds[0])
    } else {
        dependency_check(cmds.drop_first(), found.drop_first())
    }
}

/// The views of a slice of texts.
pub open spec fn str_views(cmds: Seq<&str>) -> Seq<Seq<char>> {
    cmds.map_values(|c: &str| c@)
}

/// `Ok` when every command was found, else the error naming the first one
/// that was not.
pub fn first_missing(cmds: &[&str], found: &[bool]) -> (r: Result<(), YtrsError>)
    requires
        cmds@.len() == found@.len(),
    ensures
        match r {
            Ok(()) => dependency_check(str_views(cmds@), found@) == Ok::<(), Seq<char>>(()),
            Err(YtrsError::MissingDependency(name)) => dependency_check(str_views(cmds@), found@)
                == Err::<(), Seq<char>>(name@),
            Err(_) => false,
        },
{
    let mut i: usize = 0;
    assert(str_views(cmds@).skip(0) =~= str_views(cmds@));
    assert(found@.skip(0) =~= found@);
    while i < cmds.len()
        invariant
            cmds@.len() == found@.len(),
            i <= cmds@.len(),
            dependency_check(str_views(cmds@), found@) == dependency_check(
                str_views(cmds@).skip(i as int),
                found@.skip(i as int),
            ),
        decreases cmds@.len() - i,
    {
        let ghost rest_cmds = str_views(cmds@).skip(i as int);
        let ghost rest_found = found@.skip(i as int);
        assert(rest_cmds[0] == cmds@[i as int]@);
        assert(rest_found[0] == found@[i as int]);
        if !found[i] {
            return Err(YtrsError::MissingDependency(String::from_str(cmds[i])));
        }
        assert(rest_cmds.drop_first() =~= str_views(cmds@).skip(i + 1));
        assert(rest_found.drop_first() =~= found@.skip(i + 1));
        i = i + 1;
    }
    Ok(())
}

/// Checks that each of `cmds` is installed; the error names the first that
/// is not.
pub fn check_dependencies(cmds: &[&str]) -> (r: Result<(), YtrsError>)
    ensures
        cmds@.len() == 0 ==> r is Ok,
        match r {
            Ok(()) => true,
            Err(YtrsError::MissingDependency(name)) => exists|k: int|
                0 <= k < cmds@.len() && cmds@[k]@ == name@,
            Err(_) => false,
        },
{
    let mut found: Vec<bool> = Vec::new();
    let mut i: usize = 0;
    while i < cmds.len()
        invariant
            i <= cmds@.len(),
            found@.len() == i,
        decreases cmds@.len() - i,
    {
        found.push(is_installed(cmds[i]));
        i = i + 1;
    }
    let r = first_missing(cmds, found.as_slice());
    proof {
        lemma_missing_is_listed(str_views(cmds@), found@);
    }
    r
}

/// A command that a check reports missing is one of the commands checked.
proof fn lemma_missing_is_listed(cmds: Seq<Seq<char>>, found: Seq<bool>)
    ensures
        dependency_check(cmds, found) matches Err(name) ==> cmds.contains(name),
    decreases cmds.len(),
{
    if cmds.len() > 0 && found.len() > 0 && found[0] {
        lemma_missing_is_listed(cmds.drop_first(), found.drop_first());
        if let Err(name) = dependency_check(cmds, found) {
            let k = choose|k: int| 0 <= k < cmds.drop_first().len() && cmds.drop_first()[k] == name;
            assert(cmds[k + 1] == name);
        }
    }
}

} // verus!
