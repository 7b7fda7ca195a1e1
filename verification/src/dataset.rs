//! Names of ZFS datasets.
use vstd::prelude::*;
use crate::error::{result_view, Error, ErrorView};
use crate::text::chars::{alphanumeric, chars_of, is_alphanumeric, texts};
use crate::text::split::{split, split_text};

verus! {

/// Characters which may follow the first one of a path component.
pub open spec fn is_component_char(c: char) -> bool {
    is_alphanumeric(c) || c == '_' || c == '-' || c == '.' || c == ':'
}

/// A dataset path component: a letter or digit, followed by letters, digits and `_-.:`.
pub open spec fn is_component(s: Seq<char>) -> bool {
    &&& s.len() > 0
    &&& is_alphanumeric(s[0])
    &&& forall|i: int| 0 < i < s.len() ==> is_component_char(#[trigger] s[i])
}

/// A dataset path: components which are separated by slashes.
pub open spec fn is_path(s: Seq<char>) -> bool {
    forall|i: int| 0 <= i < split(s, '/').len() ==> is_component(#[trigger] split(s, '/')[i])
}

/// The outcome of validating a path component.
pub open spec fn component_check(s: Seq<char>) -> Result<(), ErrorView> {
    if is_component(s) {
        Ok(())
    } else {
        Err(ErrorView::InvalidName { name: s, error: "must be [a-zA-Z0-9][a-zA-Z0-9_.:-]*"@ })
    }
}

/// The outcome of validating path components: the first which is not valid decides.
pub open spec fn components_check(list: Seq<Seq<char>>) -> Result<(), ErrorView>
    decreases list.len(),
{
    if list.len() == 0 {
        Ok(())
    } else {
        match components_check(list.drop_last()) {
            Err(error) => Err(error),
            Ok(_) => component_check(list.last()),
        }
    }
}

/// The outcome of validating a dataset path.
pub open spec fn path_check(s: Seq<char>) -> Result<(), ErrorView> {
    if s.len() == 0 {
        Err(ErrorView::InvalidName { name: s, error: "must not be empty"@ })
    } else {
        components_check(split(s, '/'))
    }
}

/// Validate a single dataset path component, eg: a pool name or a replica uuid, which becomes a
/// child dataset name.
pub fn is_valid_dataset_component(value: &str) -> (res: Result<(), Error>)
    ensures
        result_view(res) == component_check(value@),
{
    if component(value) {
        Ok(())
    } else {
        Err(
            Error::InvalidName {
                name: value.to_owned(),
                error: "must be [a-zA-Z0-9][a-zA-Z0-9_.:-]*".to_owned(),
            },
        )
    }
}

/// Whether the text is a dataset path component.
fn component(value: &str) -> (res: bool)
    ensures
        res == is_component(value@),
{
    let chars = chars_of(value);
    if chars.len() == 0 || !alphanumeric(chars[0]) {
        return false;
    }
    for i in 1..chars.len()
        invariant
            chars@ == value@,
            forall|j: int| 0 < j < i ==> is_component_char(#[trigger] value@[j]),
    {
        let c = chars[i];
        if !(alphanumeric(c) || c == '_' || c == '-' || c == '.' || c == ':') {
            assert(!is_component_char(value@[i as int]));
            return false;
        }
    }
    true
}

/// Validate a full dataset path, eg: "tank/data".
pub fn is_valid_dataset_path(value: &str) -> (res: Result<(), Error>)
    ensures
        result_view(res) == path_check(value@),
        res is Ok <==> is_path(value@),
{
    if value.is_empty() {
        assert(split(value@, '/') =~= seq![Seq::<char>::empty()]);
        assert(!is_component(split(value@, '/')[0]));
        return Err(
            Error::InvalidName { name: value.to_owned(), error: "must not be empty".to_owned() },
        );
    }
    let components = split_text(value, '/');
    let ghost all = split(value@, '/');
    for i in 0..components.len()
        invariant
            value@.len() > 0,
            all == split(value@, '/'),
            texts(components@) == all,
            components_check(all.take(i as int)) == Ok::<(), ErrorView>(()),
            forall|j: int| 0 <= j < i ==> is_component(#[trigger] all[j]),
    {
        proof {
            assert(all.take(i + 1).drop_last() =~= all.take(i as int));
            assert(all[i as int] == components@[i as int]@);
        }
        if let Err(error) = is_valid_dataset_component(components[i].as_str()) {
            proof {
                lemma_check_fails(all, i + 1);
                assert(all.take(all.len() as int) =~= all);
                assert(!is_component(all[i as int]));
            }
            return Err(error);
        }
    }
    assert(all.take(all.len() as int) =~= all);
    Ok(())
}

/// A list which starts with components that fail to validate fails in the same way.
proof fn lemma_check_fails(list: Seq<Seq<char>>, n: int)
    requires
        0 <= n <= list.len(),
        components_check(list.take(n)) is Err,
    ensures
        components_check(list) == components_check(list.take(n)),
    decreases list.len() - n,
{
    if n == list.len() {
        assert(list.take(n) =~= list);
    } else {
        assert(list.take(n + 1).drop_last() =~= list.take(n));
        lemma_check_fails(list, n + 1);
    }
}

} // verus!
