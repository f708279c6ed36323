//! Which installed models are reported: where the models directory lies,
//! and which of its entries count.

use vstd::prelude::*;

use crate::invocation::{texts, Platform};
use crate::text::has_prefix;

verus! {

/// Entries of the models directory whose names start with this are models
/// of the family the application drives.
pub const MODEL_PREFIX: &'static str = "deepseek-r1:";

/// The variable that holds the base directory, on Windows.
pub const BASE_VAR_WINDOWS: &'static str = "LOCALAPPDATA";

/// The variable that holds the base directory, elsewhere.
pub const BASE_VAR_UNIX: &'static str = "HOME";

/// The runner's directory under the base directory, on Windows.
pub const RUNNER_DIR_WINDOWS: &'static str = "Ollama";

/// The runner's directory under the base directory, elsewhere.
pub const RUNNER_DIR_UNIX: &'static str = ".ollama";

/// The models directory under the runner's directory.
pub const MODELS_DIR: &'static str = "models";

/// What a scan of the models directory found.
pub enum ModelScan {
    /// The variable that names the base directory is not set; the
    /// description of why it could not be read.
    VarUnset(String),
    /// The models directory does not exist.
    DirAbsent,
    /// The names of the directory's entries, in the order they were listed.
    Listed(Vec<String>),
    /// Listing the directory failed; the description of why.
    ReadFailed(String),
}

/// Whether a name is that of a model of the driven family.
pub open spec fn is_model_name(n: Seq<char>) -> bool {
    MODEL_PREFIX@.is_prefix_of(n)
}

/// The names that are model names, in their order.
pub open spec fn kept_models(names: Seq<Seq<char>>) -> Seq<Seq<char>>
    decreases names.len(),
{
    if names.len() == 0 {
        Seq::empty()
    } else if is_model_name(names.last()) {
        kept_models(names.drop_last()).push(names.last())
    } else {
        kept_models(names.drop_last())
    }
}

/// The list of models that a scan gives: none where the directory is
/// absent, the model names among the entries where it was listed, and the
/// description of the failure otherwise.
pub open spec fn models_result(scan: ModelScan) -> Result<Seq<Seq<char>>, Seq<char>> {
    match scan {
        ModelScan::VarUnset(m) => Err(m@),
        ModelScan::DirAbsent => Ok(Seq::empty()),
        ModelScan::Listed(names) => Ok(kept_models(texts(names@))),
        ModelScan::ReadFailed(m) => Err(m@),
    }
}

/// The listing keeps exactly the entries whose names are model names:
/// everything it returns is a model name found among the entries, and
/// every model name among the entries is returned.
pub proof fn kept_models_are_exactly_model_names(names: Seq<Seq<char>>)
    ensures
        forall|i: int|
            0 <= i < kept_models(names).len() ==> is_model_name(#[trigger] kept_models(names)[i])
                && names.contains(kept_models(names)[i]),
        forall|i: int|
            0 <= i < names.len() && is_model_name(#[trigger] names[i]) ==> kept_models(
                names,
            ).contains(names[i]),
    decreases names.len(),
{
    if names.len() > 0 {
        let init = names.drop_last();
        kept_models_are_exactly_model_names(init);
        assert forall|i: int|
            0 <= i < kept_models(names).len() implies is_model_name(
                #[trigger] kept_models(names)[i],
            ) && names.contains(kept_models(names)[i]) by {
            if i < kept_models(init).len() {
                let k = choose|k: int| 0 <= k < init.len() && init[k] == kept_models(init)[i];
                assert(names[k] == init[k]);
            } else {
                assert(names[names.len() - 1] == names.last());
            }
        }
        assert forall|i: int|
            0 <= i < names.len() && is_model_name(#[trigger] names[i]) implies kept_models(
                names,
            ).contains(names[i]) by {
            if i < init.len() {
                assert(init[i] == names[i]);
                let k = choose|k: int|
                    0 <= k < kept_models(init).len() && kept_models(init)[k] == init[i];
                assert(kept_models(names)[k] == kept_models(init)[k]);
            } else {
                let kn = kept_models(names);
                assert(kn[kn.len() - 1] == names.last());
            }
        }
    }
}

/// A list result as plain characters.
pub open spec fn list_result(r: Result<Vec<String>, String>) -> Result<Seq<Seq<char>>, Seq<char>> {
    match r {
        Ok(v) => Ok(texts(v@)),
        Err(e) => Err(e@),
    }
}

/// The variable that names the base directory on each platform.
pub open spec fn base_var(p: Platform) -> Seq<char> {
    match p {
        Platform::Windows => BASE_VAR_WINDOWS@,
        Platform::Unix => BASE_VAR_UNIX@,
    }
}

/// The directories under the base directory that lead to the models, on
/// each platform.
pub open spec fn models_path(p: Platform) -> Seq<Seq<char>> {
    match p {
        Platform::Windows => seq![RUNNER_DIR_WINDOWS@, MODELS_DIR@],
        Platform::Unix => seq![RUNNER_DIR_UNIX@, MODELS_DIR@],
    }
}

/// The name of the variable that holds the base directory.
pub fn models_base_var(p: Platform) -> (r: String)
    ensures
        r@ == base_var(p),
{
    match p {
        Platform::Windows => String::from_str(BASE_VAR_WINDOWS),
        Platform::Unix => String::from_str(BASE_VAR_UNIX),
    }
}

/// The directories to append, in order, to the base directory to reach
/// the models.
pub fn models_subdirs(p: Platform) -> (r: Vec<String>)
    ensures
        texts(r@) == models_path(p),
{
    let mut r: Vec<String> = Vec::new();
    match p {
        Platform::Windows => r.push(String::from_str(RUNNER_DIR_WINDOWS)),
        Platform::Unix => r.push(String::from_str(RUNNER_DIR_UNIX)),
    }
    r.push(String::from_str(MODELS_DIR));
    assert(texts(r@) =~= models_path(p));
    r
}

/// Keeps the names that are model names, in their order.
pub fn select_models(names: Vec<String>) -> (r: Vec<String>)
    ensures
        texts(r@) == kept_models(texts(names@)),
{
    let ghost ns = texts(names@);
    let mut r: Vec<String> = Vec::new();
    let mut i: usize = 0;
    while i < names.len()
        invariant
            i <= names.len(),
            ns == texts(names@),
            texts(r@) == kept_models(ns.take(i as int)),
        decreases names.len() - i,
    {
        assert(ns.take(i + 1).drop_last() =~= ns.take(i as int));
        if has_prefix(names[i].as_str(), MODEL_PREFIX) {
            r.push(names[i].clone());
            assert(texts(r@) =~= kept_models(ns.take(i + 1)));
        }
        i += 1;
    }
    assert(ns.take(names.len() as int) =~= ns);
    r
}

/// The installed models that a scan of the models directory shows.
pub fn models_outcome(scan: ModelScan) -> (r: Result<Vec<String>, String>)
    ensures
        list_result(r) == models_result(scan),
{
    match scan {
        ModelScan::VarUnset(m) => Err(m),
        ModelScan::DirAbsent => {
            let v: Vec<String> = Vec::new();
            assert(texts(v@) =~= Seq::empty());
            Ok(v)
        },
        ModelScan::Listed(names) => Ok(select_models(names)),
        ModelScan::ReadFailed(m) => Err(m),
    }
}

} // verus!
