//! Pool and volume creation options.
//!
//! Pool level defaults are passed as query parameters on the single disks entry, example:
//! "tank/data?compression=zstd&volblocksize=16k&quota=200GiB". These are applied to the pool
//! container dataset at creation time, and ZFS inheritance applies them to all child zvols
//! automatically.
//!
//! Per replica overrides are passed as a list of keys and values on the create replica request,
//! and are applied to the zvol at creation time, taking precedence over the pool defaults.
use vstd::prelude::*;
use crate::dataset::{is_valid_dataset_path, path_check};
use crate::error::{result_view, Error, ErrorView};
use crate::text::chars::{
    alphanumeric, ascii_lower, ascii_lower_of, chars_of, digit, is_alphanumeric, is_digit, str_eq,
    string_of, text_pairs, texts,
};
use crate::text::decimal::{decimal, decimal_text, digits_value, digits_value_of};
use crate::text::search::{trim, trim_chars};
use crate::text::split::{
    nonempty, split, split_nonempty, split_once, split_once_text,
};

verus! {

/// The default zvol volblocksize used when neither the create pool request nor the disks query
/// parameters specify one.
pub const DEFAULT_VOLBLOCKSIZE: u64 = 16 * 1024;

/// The smallest volblocksize.
pub const VOLBLOCKSIZE_MIN: u64 = 512;

/// The largest volblocksize.
pub const VOLBLOCKSIZE_MAX: u64 = 128 * 1024;

/// ZFS dataset properties which may be set at pool level, where they are inherited by the child
/// zvols, and per replica.
pub open spec fn is_prop_key(key: Seq<char>) -> bool {
    key == "compression"@ || key == "dedup"@ || key == "logbias"@ || key == "sync"@
}

/// Words that may be passed as the value of a property.
pub open spec fn is_prop_value(value: Seq<char>) -> bool {
    &&& value.len() > 0
    &&& forall|i: int|
        0 <= i < value.len() ==> is_alphanumeric(#[trigger] value[i]) || value[i] == '-' || value[i]
            == '_' || value[i] == '.'
}

/// The powers of two.
pub open spec fn is_power_of_two(n: nat) -> bool
    decreases n,
{
    n == 1 || (n > 1 && n % 2 == 0 && is_power_of_two(n / 2))
}

/// The sizes that the blocks of a zvol may have.
pub open spec fn is_volblocksize(size: u64) -> bool {
    is_power_of_two(size as nat) && VOLBLOCKSIZE_MIN <= size <= VOLBLOCKSIZE_MAX
}

/// The number of digits the text starts with.
pub open spec fn digit_prefix(s: Seq<char>) -> nat
    decreases s.len(),
{
    if s.len() > 0 && is_digit(s[0]) {
        1 + digit_prefix(s.drop_first())
    } else {
        0
    }
}

/// The factor that a unit in lower case stands for.
pub open spec fn unit_factor(unit: Seq<char>) -> Option<u64> {
    if unit == ""@ {
        Some(1)
    } else if unit == "k"@ {
        Some(0x400)
    } else if unit == "m"@ {
        Some(0x10_0000)
    } else if unit == "g"@ {
        Some(0x4000_0000)
    } else if unit == "t"@ {
        Some(0x100_0000_0000)
    } else if unit == "p"@ {
        Some(0x4_0000_0000_0000)
    } else {
        None
    }
}

/// The unit that a suffix names: the suffix in lower case, without the one "ib" or "b" that it may
/// end with.
pub open spec fn suffix_unit(suffix: Seq<char>) -> Seq<char> {
    let low = ascii_lower(suffix);
    if low.len() >= 2 && low.skip(low.len() - 2) == "ib"@ {
        low.take(low.len() - 2)
    } else if low.len() >= 1 && low.last() == 'b' {
        low.drop_last()
    } else {
        low
    }
}

pub open spec fn option_error<T>(error: Seq<char>) -> Result<T, ErrorView> {
    Err(ErrorView::InvalidOption { error })
}

/// The number of bytes that a size stands for: decimal digits and a binary unit, within optional
/// white space.
pub open spec fn size_of_text(value: Seq<char>) -> Result<u64, ErrorView> {
    let stripped = trim(value);
    let n = digit_prefix(stripped) as int;
    let number = digits_value(stripped.take(n));
    let factor = unit_factor(suffix_unit(stripped.skip(n)));
    if stripped.len() == 0 {
        option_error("empty size value"@)
    } else if n == 0 {
        option_error(
            "'"@ + value + "' is not a valid size: "@ + "cannot parse integer from empty string"@,
        )
    } else if number > u64::MAX {
        option_error(
            "'"@ + value + "' is not a valid size: "@
                + "number too large to fit in target type"@,
        )
    } else if factor is None {
        option_error("'"@ + value + "' has an unknown size suffix"@)
    } else if number * factor.unwrap() > u64::MAX {
        option_error("'"@ + value + "' overflows"@)
    } else {
        Ok((number * factor.unwrap()) as u64)
    }
}

/// The outcome of validating a volblocksize.
pub open spec fn volblocksize_check(size: u64) -> Result<(), ErrorView> {
    if is_volblocksize(size) {
        Ok(())
    } else {
        option_error(
            "volblocksize "@ + decimal(size as nat) + " must be a power of two between "@ + decimal(
                VOLBLOCKSIZE_MIN as nat,
            ) + " and "@ + decimal(VOLBLOCKSIZE_MAX as nat),
        )
    }
}

/// The size of a block that a text stands for, or why it does not stand for one.
pub open spec fn volblocksize_of_text(value: Seq<char>) -> Result<u64, ErrorView> {
    match size_of_text(value) {
        Err(error) => Err(error),
        Ok(size) => match volblocksize_check(size) {
            Err(error) => Err(error),
            Ok(_) => Ok(size),
        },
    }
}

/// The outcome of validating the value of a property.
pub open spec fn prop_value_check(key: Seq<char>, value: Seq<char>) -> Result<(), ErrorView> {
    if is_prop_value(value) {
        Ok(())
    } else {
        option_error("'"@ + value + "' is not a valid value for '"@ + key + "'"@)
    }
}

/// Parse a size given either as plain bytes or with a binary unit suffix, ZFS style: K/M/G/T/P
/// (case-insensitive), optionally followed by "iB"/"B", once. Plain bytes may end so too.
pub fn parse_size(value: &str) -> (res: Result<u64, Error>)
    ensures
        result_view(res) == size_of_text(value@),
{
    let stripped = trim_chars(value);
    let len = stripped.len();
    if len == 0 {
        return Err(Error::InvalidOption { error: "empty size value".to_owned() });
    }
    let mut n: usize = 0;
    assert(stripped@.skip(0) =~= stripped@);
    while n < len && digit(stripped[n])
        invariant
            len == stripped@.len(),
            n <= len,
            n + digit_prefix(stripped@.skip(n as int)) == digit_prefix(stripped@),
            forall|j: int| 0 <= j < n ==> is_digit(#[trigger] stripped@[j]),
        decreases len - n,
    {
        assert(stripped@.skip(n as int).drop_first() =~= stripped@.skip(n + 1));
        n = n + 1;
    }
    assert(stripped@.subrange(0, n as int) =~= stripped@.take(n as int));
    if n == 0 {
        return Err(
            Error::InvalidOption {
                error: "'".to_owned().concat(value).concat("' is not a valid size: ").concat(
                    "cannot parse integer from empty string",
                ),
            },
        );
    }
    let number = match digits_value_of(&stripped, 0, n) {
        Some(number) => number,
        None => {
            return Err(
                Error::InvalidOption {
                    error: "'".to_owned().concat(value).concat("' is not a valid size: ").concat(
                        "number too large to fit in target type",
                    ),
                },
            );
        },
    };
    match factor_of_suffix(&stripped, n) {
        None => Err(
            Error::InvalidOption {
                error: "'".to_owned().concat(value).concat("' has an unknown size suffix"),
            },
        ),
        Some(factor) => match number.checked_mul(factor) {
            Some(size) => Ok(size),
            None => Err(
                Error::InvalidOption {
                    error: "'".to_owned().concat(value).concat("' overflows"),
                },
            ),
        },
    }
}

/// The factor that the suffix from the given position on stands for.
fn factor_of_suffix(chars: &Vec<char>, from: usize) -> (res: Option<u64>)
    requires
        from <= chars@.len(),
    ensures
        res == unit_factor(suffix_unit(chars@.skip(from as int))),
{
    let suffix = chars_of(string_of(chars, from, chars.len()).as_str());
    assert(suffix@ =~= chars@.skip(from as int));
    let low = ascii_lower_of(&suffix);
    let len = low.len();
    let end: usize = if len >= 2 && low[len - 2] == 'i' && low[len - 1] == 'b' {
        len - 2
    } else if len >= 1 && low[len - 1] == 'b' {
        len - 1
    } else {
        len
    };
    proof {
        reveal_strlit("ib");
        if len >= 2 {
            let tail = low@.skip(len - 2);
            assert(tail[0] == low@[len - 2]);
            assert(tail[1] == low@[len - 1]);
            if low@[len - 2] == 'i' && low@[len - 1] == 'b' {
                assert(tail =~= "ib"@);
            }
        }
    }
    let text = string_of(&low, 0, end);
    assert(text@ =~= suffix_unit(suffix@));
    let unit = text.as_str();
    if str_eq(unit, "") {
        Some(1)
    } else if str_eq(unit, "k") {
        Some(0x400)
    } else if str_eq(unit, "m") {
        Some(0x10_0000)
    } else if str_eq(unit, "g") {
        Some(0x4000_0000)
    } else if str_eq(unit, "t") {
        Some(0x100_0000_0000)
    } else if str_eq(unit, "p") {
        Some(0x4_0000_0000_0000)
    } else {
        None
    }
}

/// Whether the number is a power of two.
fn power_of_two(n: u64) -> (res: bool)
    ensures
        res == is_power_of_two(n as nat),
    decreases n,
{
    n == 1 || (n > 1 && n % 2 == 0 && power_of_two(n / 2))
}

/// Validate a zvol volblocksize: a power of two, within [512, 128KiB].
pub fn validate_volblocksize(size: u64) -> (res: Result<(), Error>)
    ensures
        result_view(res) == volblocksize_check(size),
{
    if !power_of_two(size) || !(VOLBLOCKSIZE_MIN <= size && size <= VOLBLOCKSIZE_MAX) {
        return Err(
            Error::InvalidOption {
                error: "volblocksize ".to_owned().concat(decimal_text(size).as_str()).concat(
                    " must be a power of two between ",
                ).concat(decimal_text(VOLBLOCKSIZE_MIN).as_str()).concat(" and ").concat(
                    decimal_text(VOLBLOCKSIZE_MAX).as_str(),
                ),
            },
        );
    }
    Ok(())
}

/// The size of a block that a text stands for.
fn parse_volblocksize(value: &str) -> (res: Result<u64, Error>)
    ensures
        result_view(res) == volblocksize_of_text(value@),
{
    match parse_size(value) {
        Err(error) => Err(error),
        Ok(size) => match validate_volblocksize(size) {
            Err(error) => Err(error),
            Ok(_) => Ok(size),
        },
    }
}

/// A valid volblocksize is not zero.
pub proof fn lemma_volblocksize_positive(size: u64)
    requires
        volblocksize_check(size) is Ok,
    ensures
        size > 0,
{
}

/// The smallest multiple of the block size which is not below the size.
pub open spec fn rounded_up(size: u64, volblocksize: u64) -> int {
    if size as int % volblocksize as int == 0 {
        size as int
    } else {
        (size as int / volblocksize as int + 1) * volblocksize
    }
}

/// Whether the size can be rounded up to a multiple of the volblocksize.
pub fn can_round_up(size: u64, volblocksize: u64) -> (res: bool)
    ensures
        res == (volblocksize > 0 && rounded_up(size, volblocksize) <= u64::MAX),
{
    if volblocksize == 0 {
        return false;
    }
    let rest = size % volblocksize;
    proof {
        lemma_rounded_up(size, volblocksize);
    }
    rest == 0 || size - rest <= u64::MAX - volblocksize
}

/// Round the size up to the next multiple of the volblocksize.
pub fn round_up(size: u64, volblocksize: u64) -> (res: u64)
    requires
        volblocksize > 0,
        rounded_up(size, volblocksize) <= u64::MAX,
    ensures
        res == rounded_up(size, volblocksize),
{
    let rest = size % volblocksize;
    proof {
        lemma_rounded_up(size, volblocksize);
    }
    if rest == 0 {
        size
    } else {
        size - rest + volblocksize
    }
}

proof fn lemma_rounded_up(size: u64, volblocksize: u64)
    requires
        volblocksize > 0,
    ensures
        0 <= size as int % volblocksize as int <= size,
        size as int % volblocksize as int != 0 ==> rounded_up(size, volblocksize) == size - size
            as int % volblocksize as int + volblocksize,
{
    let s = size as int;
    let b = volblocksize as int;
    vstd::arithmetic::div_mod::lemma_fundamental_div_mod(s, b);
    vstd::arithmetic::div_mod::lemma_mod_decreases(s as nat, b as nat);
    assert((s / b + 1) * b == b * (s / b) + b) by (nonlinear_arith);
}

/// A size is rounded up to a multiple of the block size, by less than one block, and a multiple
/// stays as it is.
pub proof fn law_round_up(size: u64, volblocksize: u64)
    requires
        volblocksize > 0,
    ensures
        rounded_up(size, volblocksize) % volblocksize as int == 0,
        size <= rounded_up(size, volblocksize) < size + volblocksize,
        size as int % volblocksize as int == 0 ==> rounded_up(size, volblocksize) == size,
{
    lemma_rounded_up(size, volblocksize);
    let b = volblocksize as int;
    let q = size as int / b + 1;
    vstd::arithmetic::div_mod::lemma_mod_multiples_basic(q, b);
}

/// Validate a passthrough property value, which must be a simple word, as one of the well-known
/// zfs property values (on, off, zstd, lz4, ...). The actual value validation is left to the zfs
/// binary itself.
pub fn validate_prop_value(key: &str, value: &str) -> (res: Result<(), Error>)
    ensures
        result_view(res) == prop_value_check(key@, value@),
{
    if prop_value(value) {
        Ok(())
    } else {
        Err(
            Error::InvalidOption {
                error: "'".to_owned().concat(value).concat("' is not a valid value for '").concat(
                    key,
                ).concat("'"),
            },
        )
    }
}

/// Whether the text may be passed as the value of a property.
fn prop_value(value: &str) -> (res: bool)
    ensures
        res == is_prop_value(value@),
{
    let chars = chars_of(value);
    for i in 0..chars.len()
        invariant
            chars@ == value@,
            forall|j: int|
                0 <= j < i ==> is_alphanumeric(#[trigger] value@[j]) || value@[j] == '-'
                    || value@[j] == '_' || value@[j] == '.',
    {
        let c = chars[i];
        if !(alphanumeric(c) || c == '-' || c == '_' || c == '.') {
            assert(value@[i as int] == c);
            return false;
        }
    }
    chars.len() > 0
}

/// Whether the key is that of a property which may be set at pool level or per replica.
fn prop_key(key: &str) -> (res: bool)
    ensures
        res == is_prop_key(key@),
{
    str_eq(key, "compression") || str_eq(key, "dedup") || str_eq(key, "logbias") || str_eq(
        key,
        "sync",
    )
}

/// Pool creation options, parsed from the disks string of the create/import pool requests.
#[derive(Debug, Clone, PartialEq)]
pub struct ZfsPoolOpts {
    /// The parent dataset path, without any query parameters.
    parent: String,
    /// The verbatim disks entry, including any query parameters.
    disks: String,
    /// The default volblocksize for child zvols.
    volblocksize: Option<u64>,
    /// A quota for the pool container dataset.
    quota: Option<u64>,
    /// Allow-listed inheritable properties, passed verbatim to zfs create -o.
    props: Vec<(String, String)>,
}

/// The mathematical view of pool creation options.
#[verifier::ext_equal]
pub struct PoolOptsView {
    pub parent: Seq<char>,
    pub disks: Seq<char>,
    pub volblocksize: Option<u64>,
    pub quota: Option<u64>,
    pub props: Seq<(Seq<char>, Seq<char>)>,
}

impl Default for ZfsPoolOpts {
    fn default() -> (res: Self)
        ensures
            res@ == (PoolOptsView {
                parent: Seq::empty(),
                disks: Seq::empty(),
                volblocksize: None,
                quota: None,
                props: Seq::empty(),
            }),
    {
        let res = ZfsPoolOpts {
            parent: String::new(),
            disks: String::new(),
            volblocksize: None,
            quota: None,
            props: Vec::new(),
        };
        assert(text_pairs(res.props@) =~= Seq::empty());
        res
    }
}

impl View for ZfsPoolOpts {
    type V = PoolOptsView;

    closed spec fn view(&self) -> PoolOptsView {
        PoolOptsView {
            parent: self.parent@,
            disks: self.disks@,
            volblocksize: self.volblocksize,
            quota: self.quota,
            props: text_pairs(self.props@),
        }
    }
}

/// The options with one more key=value pair of the disks entry applied.
pub open spec fn with_pool_pair(opts: PoolOptsView, pair: Seq<char>) -> Result<
    PoolOptsView,
    ErrorView,
> {
    match split_once(pair, '=') {
        None => option_error("'"@ + pair + "' is not a key=value pair"@),
        Some((key, value)) => if key == "volblocksize"@ {
            match volblocksize_of_text(value) {
                Err(error) => Err(error),
                Ok(size) => Ok(PoolOptsView { volblocksize: Some(size), ..opts }),
            }
        } else if key == "quota"@ {
            match size_of_text(value) {
                Err(error) => Err(error),
                Ok(size) => Ok(PoolOptsView { quota: Some(size), ..opts }),
            }
        } else if is_prop_key(key) {
            match prop_value_check(key, value) {
                Err(error) => Err(error),
                Ok(_) => Ok(PoolOptsView { props: opts.props.push((key, value)), ..opts }),
            }
        } else {
            option_error("'"@ + key + "' is not a supported ZFS pool option"@)
        },
    }
}

/// The options with the key=value pairs of the disks entry applied in turn, up to the first which
/// is not valid.
pub open spec fn with_pool_pairs(opts: PoolOptsView, pairs: Seq<Seq<char>>) -> Result<
    PoolOptsView,
    ErrorView,
>
    decreases pairs.len(),
{
    if pairs.len() == 0 {
        Ok(opts)
    } else {
        match with_pool_pairs(opts, pairs.drop_last()) {
            Err(error) => Err(error),
            Ok(opts) => with_pool_pair(opts, pairs.last()),
        }
    }
}

/// The options that a single disks entry stands for.
pub open spec fn pool_opts_of_disk(disk: Seq<char>) -> Result<PoolOptsView, ErrorView> {
    let (parent, query) = match split_once(disk, '?') {
        None => (disk, Seq::empty()),
        Some(parts) => parts,
    };
    match path_check(parent) {
        Err(error) => Err(error),
        Ok(_) => with_pool_pairs(
            PoolOptsView {
                parent,
                disks: disk,
                volblocksize: None,
                quota: None,
                props: Seq::empty(),
            },
            nonempty(split(query, '&')),
        ),
    }
}

/// The options that the disks entries of a request stand for.
pub open spec fn pool_opts_of_disks(disks: Seq<Seq<char>>) -> Result<PoolOptsView, ErrorView> {
    if disks.len() == 0 {
        Err(
            ErrorView::InvalidDisks {
                error: "a ZFS pool requires exactly one disks entry, none given"@,
            },
        )
    } else if disks.len() > 1 {
        Err(
            ErrorView::InvalidDisks {
                error: "a ZFS pool requires exactly one disks entry, "@ + decimal(disks.len())
                    + " given"@,
            },
        )
    } else {
        pool_opts_of_disk(disks[0])
    }
}

proof fn lemma_pool_pairs_fail(opts: PoolOptsView, pairs: Seq<Seq<char>>, n: int)
    requires
        0 <= n <= pairs.len(),
        with_pool_pairs(opts, pairs.take(n)) is Err,
    ensures
        with_pool_pairs(opts, pairs) == with_pool_pairs(opts, pairs.take(n)),
    decreases pairs.len() - n,
{
    if n == pairs.len() {
        assert(pairs.take(n) =~= pairs);
    } else {
        assert(pairs.take(n + 1).drop_last() =~= pairs.take(n));
        lemma_pool_pairs_fail(opts, pairs, n + 1);
    }
}

/// The view of a result with options.
pub open spec fn pool_opts_result(res: Result<ZfsPoolOpts, Error>) -> Result<
    PoolOptsView,
    ErrorView,
> {
    match res {
        Ok(opts) => Ok(opts@),
        Err(error) => Err(error@),
    }
}

impl ZfsPoolOpts {
    /// Parse the pool options from the disks entries of a create/import pool request. Exactly one
    /// disks entry is expected, in the form: <parent/dataset/path>[?key=value[&key=value]].
    pub fn try_from_disks(disks: &[String]) -> (res: Result<Self, Error>)
        ensures
            pool_opts_result(res) == pool_opts_of_disks(texts(disks@)),
    {
        if disks.len() == 0 {
            return Err(
                Error::InvalidDisks {
                    error: "a ZFS pool requires exactly one disks entry, none given".to_owned(),
                },
            );
        }
        if disks.len() > 1 {
            return Err(
                Error::InvalidDisks {
                    error: "a ZFS pool requires exactly one disks entry, ".to_owned().concat(
                        decimal_text(disks.len() as u64).as_str(),
                    ).concat(" given"),
                },
            );
        }
        assert(texts(disks@)[0] == disks@[0]@);
        Self::try_from_disk(&disks[0])
    }

    /// Parse the pool options from a single disks entry.
    fn try_from_disk(disk: &String) -> (res: Result<Self, Error>)
        ensures
            pool_opts_result(res) == pool_opts_of_disk(disk@),
    {
        let (parent, query) = match split_once_text(disk.as_str(), '?') {
            None => (disk.clone(), String::new()),
            Some(parts) => parts,
        };
        if let Err(error) = is_valid_dataset_path(parent.as_str()) {
            return Err(error);
        }
        let pairs = split_nonempty(query.as_str(), '&');
        let ghost all = nonempty(split(query@, '&'));
        let mut opts = ZfsPoolOpts {
            parent,
            disks: disk.clone(),
            volblocksize: None,
            quota: None,
            props: Vec::new(),
        };
        let ghost start = opts@;
        assert(start.props =~= Seq::empty());
        for i in 0..pairs.len()
            invariant
                texts(pairs@) == all,
                pool_opts_of_disk(disk@) == with_pool_pairs(start, all),
                with_pool_pairs(start, all.take(i as int)) == Ok::<PoolOptsView, ErrorView>(opts@),
        {
            proof {
                assert(all.take(i + 1).drop_last() =~= all.take(i as int));
                assert(all[i as int] == pairs@[i as int]@);
            }
            match opts.with_pair(&pairs[i]) {
                Err(error) => {
                    proof {
                        lemma_pool_pairs_fail(start, all, i + 1);
                    }
                    return Err(error);
                },
                Ok(next) => {
                    opts = next;
                },
            }
        }
        assert(all.take(all.len() as int) =~= all);
        Ok(opts)
    }

    /// Apply one key=value pair of the disks entry.
    fn with_pair(self, pair: &String) -> (res: Result<Self, Error>)
        ensures
            pool_opts_result(res) == with_pool_pair(self@, pair@),
    {
        let (key, value) = match split_once_text(pair.as_str(), '=') {
            None => {
                return Err(
                    Error::InvalidOption {
                        error: "'".to_owned().concat(pair.as_str()).concat(
                            "' is not a key=value pair",
                        ),
                    },
                );
            },
            Some(parts) => parts,
        };
        if str_eq(key.as_str(), "volblocksize") {
            match parse_volblocksize(value.as_str()) {
                Err(error) => Err(error),
                Ok(size) => Ok(ZfsPoolOpts { volblocksize: Some(size), ..self }),
            }
        } else if str_eq(key.as_str(), "quota") {
            match parse_size(value.as_str()) {
                Err(error) => Err(error),
                Ok(size) => Ok(ZfsPoolOpts { quota: Some(size), ..self }),
            }
        } else if prop_key(key.as_str()) {
            match validate_prop_value(key.as_str(), value.as_str()) {
                Err(error) => Err(error),
                Ok(_) => {
                    let mut props = self.props;
                    let ghost before = props@;
                    let ghost pair = (key@, value@);
                    props.push((key, value));
                    assert(text_pairs(props@) =~= text_pairs(before).push(pair));
                    Ok(
                        ZfsPoolOpts {
                            parent: self.parent,
                            disks: self.disks,
                            volblocksize: self.volblocksize,
                            quota: self.quota,
                            props,
                        },
                    )
                },
            }
        } else {
            Err(
                Error::InvalidOption {
                    error: "'".to_owned().concat(key.as_str()).concat(
                        "' is not a supported ZFS pool option",
                    ),
                },
            )
        }
    }

    /// The parent dataset path, without any query parameters.
    pub fn parent(&self) -> (res: &str)
        ensures
            res@ == self@.parent,
    {
        self.parent.as_str()
    }

    /// The verbatim disks entry, including any query parameters.
    pub fn disks(&self) -> (res: &str)
        ensures
            res@ == self@.disks,
    {
        self.disks.as_str()
    }

    /// The default volblocksize for child zvols, if specified.
    pub fn volblocksize(&self) -> (res: Option<u64>)
        ensures
            res == self@.volblocksize,
    {
        self.volblocksize
    }

    /// The pool container dataset quota, if specified.
    pub fn quota(&self) -> (res: Option<u64>)
        ensures
            res == self@.quota,
    {
        self.quota
    }

    /// Allow-listed inheritable properties for zfs create -o.
    pub fn props(&self) -> (res: &[(String, String)])
        ensures
            text_pairs(res@) == self@.props,
    {
        self.props.as_slice()
    }
}

/// Zvol creation options, parsed from the properties of a create replica request. Values here
/// override the pool level defaults.
#[derive(Debug, Clone, PartialEq)]
pub struct ZvolCreateOpts {
    /// The volblocksize for the zvol, immutable after creation.
    volblocksize: Option<u64>,
    /// Allow-listed zvol properties, passed verbatim to zfs create -o.
    props: Vec<(String, String)>,
}

/// The mathematical view of zvol creation options.
#[verifier::ext_equal]
pub struct ZvolOptsView {
    pub volblocksize: Option<u64>,
    pub props: Seq<(Seq<char>, Seq<char>)>,
}

impl View for ZvolCreateOpts {
    type V = ZvolOptsView;

    closed spec fn view(&self) -> ZvolOptsView {
        ZvolOptsView { volblocksize: self.volblocksize, props: text_pairs(self.props@) }
    }
}

impl Default for ZvolCreateOpts {
    fn default() -> (res: Self)
        ensures
            res@ == (ZvolOptsView { volblocksize: None, props: Seq::empty() }),
    {
        let res = ZvolCreateOpts { volblocksize: None, props: Vec::new() };
        assert(res@.props =~= Seq::empty());
        res
    }
}

/// The options with one more property of the request applied.
pub open spec fn with_zvol_pair(opts: ZvolOptsView, pair: (Seq<char>, Seq<char>)) -> Result<
    ZvolOptsView,
    ErrorView,
> {
    let (key, value) = pair;
    if key == "volblocksize"@ {
        match volblocksize_of_text(value) {
            Err(error) => Err(error),
            Ok(size) => Ok(ZvolOptsView { volblocksize: Some(size), ..opts }),
        }
    } else if is_prop_key(key) {
        match prop_value_check(key, value) {
            Err(error) => Err(error),
            Ok(_) => Ok(ZvolOptsView { props: opts.props.push((key, value)), ..opts }),
        }
    } else {
        option_error("'"@ + key + "' is not a supported ZFS replica property"@)
    }
}

/// The options that the properties of a request stand for: each applied in turn, up to the first
/// which is not valid.
pub open spec fn zvol_opts_of(properties: Seq<(Seq<char>, Seq<char>)>) -> Result<
    ZvolOptsView,
    ErrorView,
>
    decreases properties.len(),
{
    if properties.len() == 0 {
        Ok(ZvolOptsView { volblocksize: None, props: Seq::empty() })
    } else {
        match zvol_opts_of(properties.drop_last()) {
            Err(error) => Err(error),
            Ok(opts) => with_zvol_pair(opts, properties.last()),
        }
    }
}

proof fn lemma_zvol_pairs_fail(pairs: Seq<(Seq<char>, Seq<char>)>, n: int)
    requires
        0 <= n <= pairs.len(),
        zvol_opts_of(pairs.take(n)) is Err,
    ensures
        zvol_opts_of(pairs) == zvol_opts_of(pairs.take(n)),
    decreases pairs.len() - n,
{
    if n == pairs.len() {
        assert(pairs.take(n) =~= pairs);
    } else {
        assert(pairs.take(n + 1).drop_last() =~= pairs.take(n));
        lemma_zvol_pairs_fail(pairs, n + 1);
    }
}

/// The view of a result with zvol options.
pub open spec fn zvol_opts_result(res: Result<ZvolCreateOpts, Error>) -> Result<
    ZvolOptsView,
    ErrorView,
> {
    match res {
        Ok(opts) => Ok(opts@),
        Err(error) => Err(error@),
    }
}

impl ZvolCreateOpts {
    /// Parse the zvol creation options from the properties of a create replica request. Unknown
    /// keys are rejected.
    pub fn try_from_properties(properties: &[(String, String)]) -> (res: Result<Self, Error>)
        ensures
            zvol_opts_result(res) == zvol_opts_of(text_pairs(properties@)),
    {
        let ghost all = text_pairs(properties@);
        let mut opts = ZvolCreateOpts::default();
        for i in 0..properties.len()
            invariant
                all == text_pairs(properties@),
                zvol_opts_of(all.take(i as int)) == Ok::<ZvolOptsView, ErrorView>(opts@),
        {
            proof {
                assert(all.take(i + 1).drop_last() =~= all.take(i as int));
                assert(all[i as int] == (properties@[i as int].0@, properties@[i as int].1@));
            }
            match opts.with_property(&properties[i].0, &properties[i].1) {
                Err(error) => {
                    proof {
                        lemma_zvol_pairs_fail(all, i + 1);
                    }
                    return Err(error);
                },
                Ok(next) => {
                    opts = next;
                },
            }
        }
        assert(all.take(all.len() as int) =~= all);
        Ok(opts)
    }

    /// Apply one property of the request.
    fn with_property(self, key: &String, value: &String) -> (res: Result<Self, Error>)
        ensures
            zvol_opts_result(res) == with_zvol_pair(self@, (key@, value@)),
    {
        if str_eq(key.as_str(), "volblocksize") {
            match parse_volblocksize(value.as_str()) {
                Err(error) => Err(error),
                Ok(size) => Ok(ZvolCreateOpts { volblocksize: Some(size), ..self }),
            }
        } else if prop_key(key.as_str()) {
            match validate_prop_value(key.as_str(), value.as_str()) {
                Err(error) => Err(error),
                Ok(_) => {
                    let mut props = self.props;
                    let ghost before = props@;
                    props.push((key.clone(), value.clone()));
                    assert(text_pairs(props@) =~= text_pairs(before).push((key@, value@)));
                    Ok(ZvolCreateOpts { volblocksize: self.volblocksize, props })
                },
            }
        } else {
            Err(
                Error::InvalidOption {
                    error: "'".to_owned().concat(key.as_str()).concat(
                        "' is not a supported ZFS replica property",
                    ),
                },
            )
        }
    }

    /// The volblocksize override, if specified.
    pub fn volblocksize(&self) -> (res: Option<u64>)
        ensures
            res == self@.volblocksize,
    {
        self.volblocksize
    }

    /// Allow-listed zvol properties for zfs create -o.
    pub fn props(&self) -> (res: &[(String, String)])
        ensures
            text_pairs(res@) == self@.props,
    {
        self.props.as_slice()
    }
}

} // verus!
