//! Batch inference over files and directories.
//!
//! Reading the file system, decoding images and the forward pass are done
//! elsewhere. Here is what is decided around them: which architecture the
//! configuration asks for and whether a checkpoint fits it, which files of a
//! directory are images and in which order they are taken, what a prediction
//! is called, and what is printed.

use crate::config::DatasetConfig;
use crate::error::{Error, ErrorKind};
use crate::model::{
    accept_checkpoint,
    select_model,
    spec_accept,
    spec_select,
    Checkpoint,
    ModelInstance,
};
use crate::text::{
    decimal,
    decimal_string,
    lemma_lex_total,
    lemma_lex_transitive,
    lex_le,
    text_le,
};
use vstd::prelude::*;
use vstd::seq_lib::{to_multiset_build, to_multiset_insert};

verus! {

/// What a path given on the command line turned out to be.
pub enum PathKind {
    /// A directory, with the paths of its entries in the order in which they
    /// were listed.
    Directory(Vec<String>),
    /// A file.
    File,
    /// Neither.
    Other,
}

/// What is to be done for a path.
#[derive(Debug, Clone, PartialEq, Eq)]
pub enum InferencePlan {
    /// Nothing but to print a notice: the directory holds no image.
    Notice(String),
    /// Print the header, then one row for each file in this order.
    Table(Vec<String>),
    /// Print the prediction for the one file.
    Single,
}

/// True when a path names an image file by its extension: it ends in a dot
/// followed by the letters `png` in either case, and the dot is not the first
/// character of the file name.
pub open spec fn spec_is_image(path: Seq<char>) -> bool {
    let n = path.len() as int;
    &&& n >= 5
    &&& path[n - 5] != '/'
    &&& path[n - 4] == '.'
    &&& (path[n - 3] == 'p' || path[n - 3] == 'P')
    &&& (path[n - 2] == 'n' || path[n - 2] == 'N')
    &&& (path[n - 1] == 'g' || path[n - 1] == 'G')
}

/// The views of a list of texts.
pub open spec fn text_views(texts: Seq<String>) -> Seq<Seq<char>> {
    Seq::new(texts.len(), |i: int| texts[i]@)
}

/// True when the texts stand in lexicographic order.
pub open spec fn is_sorted(texts: Seq<Seq<char>>) -> bool {
    forall|i: int, j: int| 0 <= i <= j < texts.len() ==> lex_le(texts[i], texts[j])
}

/// The header of the table printed for a directory.
pub open spec fn spec_header() -> Seq<char> {
    "File,Pred,Class"@
}

/// The name of a predicted class: the configured name if the index has one,
/// and else a placeholder that holds the index.
pub open spec fn spec_class_label(class_names: Seq<Seq<char>>, index: int) -> Seq<char> {
    if 0 <= index < class_names.len() {
        class_names[index]
    } else {
        "unknown_"@ + decimal(index)
    }
}

/// The row printed for a file whose class was predicted.
pub open spec fn spec_row(path: Seq<char>, index: int, class_name: Seq<char>) -> Seq<char> {
    path + ","@ + decimal(index) + ","@ + class_name
}

/// The row printed for a file that could not be processed.
pub open spec fn spec_error_row(path: Seq<char>, reason: Seq<char>) -> Seq<char> {
    path + ",ERROR:"@ + reason + ","@
}

/// The line printed for a single file.
pub open spec fn spec_prediction_line(index: int, class_name: Seq<char>) -> Seq<char> {
    "Predicted: "@ + decimal(index) + " ("@ + class_name + ")"@
}

/// The notice printed for a directory without images.
pub open spec fn spec_empty_notice(path: Seq<char>) -> Seq<char> {
    "(info) ディレクトリ内に .png ファイルがありません: "@ + path
}

/// The text of the failure reported for a path that is neither a file nor a
/// directory.
pub open spec fn spec_not_found_message(path: Seq<char>) -> Seq<char> {
    "指定パスがファイルでもディレクトリでもありません: "@ + path
}

/// The words that open the failure reported for a checkpoint that cannot be
/// used.
pub open spec fn load_failure_prefix() -> Seq<char> {
    "モデル読み込み失敗: "@
}

/// What choosing the architecture for batch inference answers: the
/// architecture that the configuration names. Here a tag that names none is
/// a fault of the configuration, as is a layer too wide for the machine.
pub open spec fn spec_dispatch(config: DatasetConfig) -> Result<
    ModelInstance,
    (ErrorKind, Seq<char>),
> {
    match spec_select(config) {
        Ok(model) => Ok(model),
        Err(failure) => Err((ErrorKind::Config, failure.1)),
    }
}

/// What loading the model for batch inference answers: the architecture of
/// the configuration, if the checkpoint fits it.
pub open spec fn spec_load_model(config: DatasetConfig, checkpoint: Checkpoint) -> Result<
    ModelInstance,
    (ErrorKind, Seq<char>),
> {
    match spec_dispatch(config) {
        Err(failure) => Err(failure),
        Ok(model) => match spec_accept(model, checkpoint, load_failure_prefix()) {
            Err(failure) => Err(failure),
            Ok(_) => Ok(model),
        },
    }
}

/// Chooses the architecture whose checkpoint batch inference loads.
pub fn dispatch_model(config: &DatasetConfig) -> (r: Result<ModelInstance, Error>)
    ensures
        match spec_dispatch(*config) {
            Ok(model) => r == Ok::<ModelInstance, Error>(model),
            Err((kind, message)) => r matches Err(e) && e.is(kind, message),
        },
{
    match select_model(config) {
        Ok(model) => Ok(model),
        Err(e) => Err(Error { kind: ErrorKind::Config, message: e.message }),
    }
}

/// Loads the model for batch inference from a decoded checkpoint: the
/// architecture of the configuration, once the checkpoint is found to hold
/// exactly its parameters.
pub fn load_model(config: &DatasetConfig, checkpoint: &Checkpoint) -> (r: Result<
    ModelInstance,
    Error,
>)
    ensures
        match spec_load_model(*config, *checkpoint) {
            Ok(model) => r == Ok::<ModelInstance, Error>(model),
            Err((kind, message)) => r matches Err(e) && e.is(kind, message),
        },
{
    let model = match dispatch_model(config) {
        Ok(model) => model,
        Err(e) => {
            return Err(e);
        },
    };
    match accept_checkpoint(&model, checkpoint, "モデル読み込み失敗: ") {
        Ok(_) => Ok(model),
        Err(e) => Err(e),
    }
}

/// Decides whether a path names an image file by its extension.
pub fn is_image_file(path: &str) -> (image: bool)
    ensures
        image == spec_is_image(path@),
{
    let n = path.unicode_len();
    if n < 5 {
        return false;
    }
    let before = path.get_char(n - 5);
    let dot = path.get_char(n - 4);
    let p = path.get_char(n - 3);
    let m = path.get_char(n - 2);
    let g = path.get_char(n - 1);
    before != '/' && dot == '.' && (p == 'p' || p == 'P') && (m == 'n' || m == 'N') && (g == 'g'
        || g == 'G')
}

/// The image files among the given paths, in lexicographic order.
pub fn select_image_files(paths: &Vec<String>) -> (files: Vec<String>)
    ensures
        is_sorted(text_views(files@)),
        text_views(files@).to_multiset() == text_views(paths@).filter(
            |p: Seq<char>| spec_is_image(p),
        ).to_multiset(),
{
    let ghost keep = |p: Seq<char>| spec_is_image(p);
    let ghost all = text_views(paths@);
    let mut files: Vec<String> = Vec::new();
    let mut i: usize = 0;
    proof {
        assert(all.take(0).filter(keep) =~= Seq::<Seq<char>>::empty());
        assert(text_views(files@) =~= Seq::<Seq<char>>::empty());
    }
    while i < paths.len()
        invariant
            i <= paths@.len(),
            all == text_views(paths@),
            keep == (|p: Seq<char>| spec_is_image(p)),
            is_sorted(text_views(files@)),
            text_views(files@).to_multiset() == all.take(i as int).filter(keep).to_multiset(),
        decreases paths@.len() - i,
    {
        proof {
            assert(all.take(i + 1) =~= all.take(i as int).push(all[i as int]));
            all.take(i as int).lemma_filter_push(all[i as int], keep);
            assert(all[i as int] == paths@[i as int]@);
        }
        if is_image_file(paths[i].as_str()) {
            let path = paths[i].clone();
            let ghost old_files = text_views(files@);
            let mut position: usize = 0;
            while position < files.len() && text_le(files[position].as_str(), path.as_str())
                invariant
                    position <= files@.len(),
                    forall|k: int|
                        0 <= k < position ==> lex_le(#[trigger] text_views(files@)[k], path@),
                decreases files@.len() - position,
            {
                position = position + 1;
            }
            proof {
                assert forall|k: int| position <= k < old_files.len() implies lex_le(
                    path@,
                    #[trigger] old_files[k],
                ) by {
                    lemma_lex_total(old_files[position as int], path@);
                    lemma_lex_transitive(path@, old_files[position as int], old_files[k]);
                }
                to_multiset_insert(old_files, position as int, path@);
                to_multiset_build(all.take(i as int).filter(keep), path@);
            }
            files.insert(position, path);
            proof {
                let new_files = text_views(files@);
                assert(new_files =~= old_files.insert(position as int, path@));
                assert forall|a: int, b: int| 0 <= a <= b < new_files.len() implies lex_le(
                    new_files[a],
                    new_files[b],
                ) by {
                    if a == b {
                        lemma_lex_total(new_files[a], new_files[a]);
                    } else if a == position {
                        assert(new_files[b] == old_files[b - 1]);
                    } else if b == position {
                        assert(new_files[a] == old_files[a]);
                    } else {
                        let oa = if a < position {
                            a
                        } else {
                            a - 1
                        };
                        let ob = if b < position {
                            b
                        } else {
                            b - 1
                        };
                        assert(new_files[a] == old_files[oa]);
                        assert(new_files[b] == old_files[ob]);
                    }
                }
            }
        }
        i = i + 1;
    }
    proof {
        assert(all.take(paths@.len() as int) =~= all);
    }
    files
}

/// The name of a predicted class.
pub fn class_label(class_names: &Vec<String>, index: i32) -> (name: String)
    ensures
        name@ == spec_class_label(text_views(class_names@), index as int),
{
    if index >= 0 && (index as usize) < class_names.len() {
        class_names[index as usize].clone()
    } else {
        let digits = decimal_string(index as i64);
        String::from_str("unknown_").concat(digits.as_str())
    }
}

/// The header of the table printed for a directory.
pub fn table_header() -> (line: String)
    ensures
        line@ == spec_header(),
{
    String::from_str("File,Pred,Class")
}

/// The row printed for a file whose class was predicted.
pub fn table_row(path: &str, index: i32, class_name: &str) -> (line: String)
    ensures
        line@ == spec_row(path@, index as int, class_name@),
{
    let digits = decimal_string(index as i64);
    String::from_str(path).concat(",").concat(digits.as_str()).concat(",").concat(class_name)
}

/// The row printed for a file that could not be processed.
pub fn error_row(path: &str, reason: &str) -> (line: String)
    ensures
        line@ == spec_error_row(path@, reason@),
{
    String::from_str(path).concat(",ERROR:").concat(reason).concat(",")
}

/// The line printed for a single file.
pub fn prediction_line(index: i32, class_name: &str) -> (line: String)
    ensures
        line@ == spec_prediction_line(index as int, class_name@),
{
    let digits = decimal_string(index as i64);
    String::from_str("Predicted: ").concat(digits.as_str()).concat(" (").concat(class_name).concat(
        ")",
    )
}

/// Plans batch inference for a path. The model comes first: a configuration
/// whose tag names no architecture fails before the path is looked at, and
/// so does a checkpoint that does not fit the architecture. Then the path: a
/// table over the image files of a directory in lexicographic order, or a
/// notice if it holds none; the one prediction for a file; a failure for
/// anything else.
pub fn infer_paths(
    config: &DatasetConfig,
    checkpoint: &Checkpoint,
    path: &str,
    kind: PathKind,
) -> (r: Result<InferencePlan, Error>)
    ensures
        match spec_load_model(*config, *checkpoint) {
            Err((failure, message)) => r matches Err(e) && e.is(failure, message),
            Ok(_) => match kind {
                PathKind::Other => r matches Err(e) && e.is(
                    ErrorKind::Io,
                    spec_not_found_message(path@),
                ),
                PathKind::File => r == Ok::<InferencePlan, Error>(InferencePlan::Single),
                PathKind::Directory(entries) => if text_views(entries@).filter(
                    |p: Seq<char>| spec_is_image(p),
                ).len() == 0 {
                    r matches Ok(InferencePlan::Notice(notice)) && notice@ == spec_empty_notice(
                        path@,
                    )
                } else {
                    r matches Ok(InferencePlan::Table(files)) && is_sorted(text_views(files@))
                        && text_views(files@).to_multiset() == text_views(entries@).filter(
                        |p: Seq<char>| spec_is_image(p),
                    ).to_multiset()
                },
            },
        },
{
    match load_model(config, checkpoint) {
        Err(e) => {
            return Err(e);
        },
        Ok(_) => {},
    }
    match kind {
        PathKind::Other => Err(
            Error::new(
                ErrorKind::Io,
                "指定パスがファイルでもディレクトリでもありません: ",
                path,
            ),
        ),
        PathKind::File => Ok(InferencePlan::Single),
        PathKind::Directory(entries) => {
            let files = select_image_files(&entries);
            proof {
                let kept = text_views(entries@).filter(|p: Seq<char>| spec_is_image(p));
                vstd::seq_lib::to_multiset_len(kept);
                vstd::seq_lib::to_multiset_len(text_views(files@));
            }
            if files.len() == 0 {
                Ok(
                    InferencePlan::Notice(
                        String::from_str(
                            "(info) ディレクトリ内に .png ファイルがありません: ",
                        ).concat(path),
                    ),
                )
            } else {
                Ok(InferencePlan::Table(files))
            }
        },
    }
}

/// The prediction for one image: the first of the predicted indices, and the
/// name of its class.
pub fn infer_single_path(config: &DatasetConfig, predictions: &Vec<i32>) -> (r: (i32, String))
    requires
        predictions@.len() > 0,
    ensures
        r.0 == predictions@[0],
        r.1@ == spec_class_label(text_views(config.class_names@), predictions@[0] as int),
{
    let index = predictions[0];
    (index, class_label(&config.class_names, index))
}

} // verus!
