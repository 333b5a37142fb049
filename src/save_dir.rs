use vstd::prelude::*;
use crate::error::Error;

verus! {

/// Where a screenshot is saved: `Ok(None)` leaves it where the portal put it
/// (an interactive capture, where the user picks the place), `Ok(Some(dir))`
/// moves it into `dir`.
///
/// `save_dir` is the directory asked for, `save_dir_is_dir` whether it names
/// an existing directory, and `pictures` the platform's pictures directory.
pub open spec fn save_dir_choice(
    interactive: bool,
    save_dir: Option<String>,
    save_dir_is_dir: bool,
    pictures: Option<String>,
) -> Result<Option<String>, Error> {
    if interactive {
        Ok(None)
    } else if save_dir is Some && save_dir_is_dir {
        Ok(save_dir)
    } else if pictures is Some {
        Ok(pictures)
    } else {
        Err(Error::MissingSaveDirectory(save_dir))
    }
}

pub fn resolve_save_dir(
    interactive: bool,
    save_dir: Option<String>,
    save_dir_is_dir: bool,
    pictures: Option<String>,
) -> (r: Result<Option<String>, Error>)
    ensures
        r == save_dir_choice(interactive, save_dir, save_dir_is_dir, pictures),
{
    if interactive {
        return Ok(None);
    }
    match save_dir {
        Some(dir) if save_dir_is_dir => Ok(Some(dir)),
        other => match pictures {
            Some(p) => Ok(Some(p)),
            None => Err(Error::MissingSaveDirectory(other)),
        },
    }
}

/// Without a save directory, a non-interactive capture goes to the pictures
/// directory, and fails with `MissingSaveDirectory` when there is none.
pub proof fn lemma_falls_back_to_pictures(save_dir_is_dir: bool, pictures: Option<String>)
    ensures
        pictures is Some ==> save_dir_choice(false, None, save_dir_is_dir, pictures) == Ok::<
            Option<String>,
            Error,
        >(pictures),
        pictures is None ==> save_dir_choice(false, None, save_dir_is_dir, pictures) == Err::<
            Option<String>,
            Error,
        >(Error::MissingSaveDirectory(None)),
{
}

} // verus!
