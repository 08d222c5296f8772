//! The decisions of the `main` attribute: which crate path reaches the
//! entrypoint, and whether the decorated function is a main function the
//! entrypoint can run, returning unit or a result.

use vstd::prelude::*;

verus! {

/// How a crate was found among the dependencies of the crate being built.
#[derive(Debug)]
pub enum FoundCrate {
    /// It is the crate being built.
    Itself,
    /// It is a dependency under this name.
    Name(String),
}

/// The outcome of looking a crate up among the dependencies.
#[derive(Debug)]
pub enum CrateLookup {
    Found(FoundCrate),
    NotFound,
    /// The lookup itself failed, with this message.
    Failed(String),
}

/// The path through which generated code reaches the entrypoint.
#[derive(Debug)]
pub enum EntryPath {
    /// `crate`: the entry crate itself is being built.
    Crate,
    /// `crate::entry`: the umbrella crate itself is being built.
    CrateEntry,
    /// `::name`: the entry crate, depended on under `name`.
    Extern(String),
    /// `::name::entry`: the umbrella crate, depended on under `name`.
    ExternEntry(String),
}

/// Why the attribute refuses a function.
#[derive(Debug)]
pub enum EntryError {
    /// Looking up a crate failed, with this message.
    Lookup(String),
    /// Neither the entry crate nor the umbrella crate is a dependency.
    NoEntryCrate,
    /// The decorated function is not `main`.
    NotMain,
    /// The decorated function is not async.
    NotAsync,
    /// The decorated function never returns, so the event loop could not
    /// shut down.
    NeverReturns,
}

/// The return type of the decorated function, as far as the attribute
/// looks at it.
#[derive(Debug)]
pub enum ReturnKind {
    /// No return type written.
    Default,
    /// A tuple type with this many elements.
    Tuple(usize),
    /// The never type `!`.
    Never,
    /// Any other type, taken to be a result.
    Other,
}

/// What the attribute generates from.
#[derive(Debug)]
pub struct MainPlan {
    pub path: EntryPath,
    /// Whether the function returns unit rather than a result.
    pub return_unit: bool,
}

/// A lookup that found nothing is no error.
pub open spec fn spec_find_optional_crate(lookup: CrateLookup) -> Result<Option<FoundCrate>, String> {
    match lookup {
        CrateLookup::Found(f) => Ok(Some(f)),
        CrateLookup::NotFound => Ok(None),
        CrateLookup::Failed(msg) => Err(msg),
    }
}

pub fn find_optional_crate(lookup: CrateLookup) -> (r: Result<Option<FoundCrate>, String>)
    ensures
        r == spec_find_optional_crate(lookup),
{
    match lookup {
        CrateLookup::Found(f) => Ok(Some(f)),
        CrateLookup::NotFound => Ok(None),
        CrateLookup::Failed(msg) => Err(msg),
    }
}

/// The entry crate is preferred; the umbrella crate is the fallback.
pub open spec fn spec_aeth_entry_crate(entry: CrateLookup, aeth: CrateLookup) -> Result<
    EntryPath,
    EntryError,
> {
    match entry {
        CrateLookup::Failed(msg) => Err(EntryError::Lookup(msg)),
        CrateLookup::Found(FoundCrate::Itself) => Ok(EntryPath::Crate),
        CrateLookup::Found(FoundCrate::Name(n)) => Ok(EntryPath::Extern(n)),
        CrateLookup::NotFound => match aeth {
            CrateLookup::Failed(msg) => Err(EntryError::Lookup(msg)),
            CrateLookup::Found(FoundCrate::Itself) => Ok(EntryPath::CrateEntry),
            CrateLookup::Found(FoundCrate::Name(n)) => Ok(EntryPath::ExternEntry(n)),
            CrateLookup::NotFound => Err(EntryError::NoEntryCrate),
        },
    }
}

/// Resolves the path to the entrypoint from the lookups of the entry crate
/// and of the umbrella crate.
pub fn aeth_entry_crate(entry: CrateLookup, aeth: CrateLookup) -> (r: Result<EntryPath, EntryError>)
    ensures
        r == spec_aeth_entry_crate(entry, aeth),
{
    match find_optional_crate(entry) {
        Err(msg) => return Err(EntryError::Lookup(msg)),
        Ok(Some(FoundCrate::Itself)) => return Ok(EntryPath::Crate),
        Ok(Some(FoundCrate::Name(n))) => return Ok(EntryPath::Extern(n)),
        Ok(None) => {},
    }
    match find_optional_crate(aeth) {
        Err(msg) => Err(EntryError::Lookup(msg)),
        Ok(Some(FoundCrate::Itself)) => Ok(EntryPath::CrateEntry),
        Ok(Some(FoundCrate::Name(n))) => Ok(EntryPath::ExternEntry(n)),
        Ok(None) => Err(EntryError::NoEntryCrate),
    }
}

/// Whether the return type makes the function return unit: none written,
/// or the empty tuple. `None` for the never type.
pub open spec fn spec_return_unit(ret: ReturnKind) -> Option<bool> {
    match ret {
        ReturnKind::Default => Some(true),
        ReturnKind::Tuple(n) => Some(n == 0),
        ReturnKind::Never => None,
        ReturnKind::Other => Some(false),
    }
}

pub open spec fn spec_main_result(
    path: Result<EntryPath, EntryError>,
    name: Seq<char>,
    is_async: bool,
    ret: ReturnKind,
) -> Result<MainPlan, EntryError> {
    match path {
        Err(e) => Err(e),
        Ok(p) => if name != seq!['m', 'a', 'i', 'n'] {
            Err(EntryError::NotMain)
        } else if !is_async {
            Err(EntryError::NotAsync)
        } else {
            match spec_return_unit(ret) {
                None => Err(EntryError::NeverReturns),
                Some(u) => Ok(MainPlan { path: p, return_unit: u }),
            }
        },
    }
}

/// Only an async function named `main` that returns is accepted, and then
/// it returns unit exactly when no return type or the empty tuple is
/// written. The failures come in order: a failed lookup, a function not
/// named `main`, one not async (whatever its return type), one that never
/// returns.
pub proof fn lemma_main_result_accepts_async_main(
    path: Result<EntryPath, EntryError>,
    name: Seq<char>,
    is_async: bool,
    ret: ReturnKind,
)
    ensures
        spec_main_result(path, name, is_async, ret) is Ok <==> (path is Ok && name == seq![
            'm',
            'a',
            'i',
            'n',
        ] && is_async && !(ret is Never)),
        path is Ok && !is_async ==> spec_main_result(path, name, is_async, ret) is Err,
        path is Ok && name == seq!['m', 'a', 'i', 'n'] && !is_async ==> spec_main_result(
            path,
            name,
            is_async,
            ret,
        ) matches Err(EntryError::NotAsync),
        path is Ok && name != seq!['m', 'a', 'i', 'n'] ==> spec_main_result(
            path,
            name,
            is_async,
            ret,
        ) matches Err(EntryError::NotMain),
        path is Ok && name == seq!['m', 'a', 'i', 'n'] && is_async && ret is Never
            ==> spec_main_result(path, name, is_async, ret) matches Err(EntryError::NeverReturns),
        spec_main_result(path, name, is_async, ret) matches Ok(plan) ==> plan.return_unit == (ret is Default
            || ret == ReturnKind::Tuple(0)),
{
}

/// Checks the decorated function, named `name`, after the entrypoint path
/// was resolved to `path`: the first failure wins.
pub fn main_result(
    path: Result<EntryPath, EntryError>,
    name: &String,
    is_async: bool,
    ret: ReturnKind,
) -> (r: Result<MainPlan, EntryError>)
    ensures
        r == spec_main_result(path, name@, is_async, ret),
        path is Ok && !is_async ==> r is Err,
        r is Ok ==> is_async && name@ == seq!['m', 'a', 'i', 'n'] && !(ret is Never),
        path is Ok && name@ == seq!['m', 'a', 'i', 'n'] && !is_async ==> r matches Err(
            EntryError::NotAsync,
        ),
{
    proof {
        lemma_main_result_accepts_async_main(path, name@, is_async, ret);
    }
    let p = match path {
        Err(e) => return Err(e),
        Ok(p) => p,
    };
    let main = "main".to_owned();
    proof {
        reveal_strlit("main");
        assert(main@ =~= seq!['m', 'a', 'i', 'n']);
    }
    if !name.eq(&main) {
        return Err(EntryError::NotMain);
    }
    if !is_async {
        return Err(EntryError::NotAsync);
    }
    let return_unit = match ret {
        ReturnKind::Default => true,
        ReturnKind::Tuple(n) => n == 0,
        ReturnKind::Never => {
            return Err(EntryError::NeverReturns);
        },
        ReturnKind::Other => false,
    };
    Ok(MainPlan { path: p, return_unit })
}

} // verus!
