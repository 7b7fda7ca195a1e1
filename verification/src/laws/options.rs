//! What the options of a request are taken to be.
use vstd::prelude::*;
use crate::dataset::{component_check, components_check, is_component, is_path, path_check};
use crate::ds_pool::{volblocksize_default, PoolView};
use crate::engine::{Errno, ReplicaArgs, StatusCode};
use crate::error::ErrorView;
use crate::flow::volume::create_block;
use crate::options::{
    digit_prefix, is_power_of_two, is_prop_key, is_prop_value, is_volblocksize, option_error,
    pool_opts_of_disks, size_of_text, suffix_unit, unit_factor, with_pool_pairs, with_zvol_pair,
    zvol_opts_of, PoolOptsView, ZvolOptsView, DEFAULT_VOLBLOCKSIZE,
};
use crate::laws::text::{is_blank, law_split, law_split_once, law_trim};
use crate::text::chars::{
    ascii_lower, ascii_lower_char, is_alphanumeric, is_digit, is_whitespace, text_pairs,
};
use crate::text::decimal::{all_digits, decimal, digits_value, lemma_decimal};
use crate::text::search::{trim, trim_end, trim_start};
use crate::text::split::{
    join, lemma_join_free, lemma_nonempty_all, lemma_split_join, lemma_split_len,
    lemma_split_once_at, nonempty, split, split_once,
};

verus! {

/// Digits that are followed by something else are the digits the text starts with.
proof fn lemma_digit_prefix(digits: Seq<char>, rest: Seq<char>)
    requires
        all_digits(digits),
        rest.len() > 0 ==> !is_digit(rest[0]),
    ensures
        digit_prefix(digits + rest) == digits.len(),
    decreases digits.len(),
{
    if digits.len() == 0 {
        assert(digits + rest =~= rest);
    } else {
        let tail = digits.drop_first();
        assert forall|i: int| 0 <= i < tail.len() implies is_digit(#[trigger] tail[i]) by {
            assert(tail[i] == digits[i + 1]);
        }
        lemma_digit_prefix(tail, rest);
        assert((digits + rest).drop_first() =~= tail + rest);
        assert((digits + rest)[0] == digits[0]);
    }
}

/// A number and what follows it are told apart.
proof fn lemma_size_parts(n: u64, suffix: Seq<char>)
    requires
        suffix.len() > 0 ==> !is_digit(suffix[0]) && !is_whitespace(suffix.last()),
    ensures
        ({
            let digits = decimal(n as nat);
            let text = digits + suffix;
            &&& trim(text) == text
            &&& digit_prefix(text) == digits.len()
            &&& digits.len() > 0
            &&& digits_value(digits) == n
            &&& text.take(digits.len() as int) == digits
            &&& text.skip(digits.len() as int) == suffix
        }),
{
    let digits = decimal(n as nat);
    let text = digits + suffix;
    lemma_decimal(n as nat);
    lemma_digit_prefix(digits, suffix);
    assert(text[0] == digits[0]);
    assert(is_digit(digits[0]));
    assert(text.last() == if suffix.len() > 0 {
        suffix.last()
    } else {
        digits.last()
    });
    assert(is_digit(digits[digits.len() - 1]));
    assert(trim_start(text) == text);
    assert(trim_end(text) == text);
    assert(text.take(digits.len() as int) =~= digits);
    assert(text.skip(digits.len() as int) =~= suffix);
}

/// A size is the number of its digits, times the factor of its unit.
pub proof fn law_size_units(n: u64, suffix: Seq<char>, factor: u64)
    requires
        suffix.len() > 0 ==> !is_digit(suffix[0]) && !is_whitespace(suffix.last()),
        unit_factor(suffix_unit(suffix)) == Some(factor),
        n * factor <= u64::MAX,
    ensures
        size_of_text(decimal(n as nat) + suffix) == Ok::<u64, ErrorView>((n * factor) as u64),
{
    lemma_size_parts(n, suffix);
}

/// The letters of the units, in either case.
pub open spec fn is_unit_letter(c: char) -> bool {
    let low = ascii_lower_char(c);
    low == 'k' || low == 'm' || low == 'g' || low == 't' || low == 'p'
}

/// What a size may end with: nothing, "iB" or "B", in any case.
pub open spec fn is_size_tail(s: Seq<char>) -> bool {
    let low = ascii_lower(s);
    low == ""@ || low == "ib"@ || low == "b"@
}

/// What may follow the digits of a size: the letter of a unit or none, and then the tail.
pub open spec fn is_size_suffix(s: Seq<char>) -> bool {
    is_size_tail(s) || (s.len() > 0 && is_unit_letter(s[0]) && is_size_tail(s.skip(1)))
}

/// A suffix names a unit exactly when it is one of those that may follow the digits of a size. A
/// size with any other suffix is refused.
pub proof fn law_size_suffixes(n: u64, suffix: Seq<char>)
    ensures
        unit_factor(suffix_unit(suffix)) is Some <==> is_size_suffix(suffix),
        !is_size_suffix(suffix) && !is_digit(suffix[0]) && !is_whitespace(suffix.last())
            ==> size_of_text(decimal(n as nat) + suffix) == option_error::<u64>(
            "'"@ + (decimal(n as nat) + suffix) + "' has an unknown size suffix"@,
        ),
{
    reveal_strlit("");
    reveal_strlit("b");
    reveal_strlit("ib");
    reveal_strlit("k");
    reveal_strlit("m");
    reveal_strlit("g");
    reveal_strlit("t");
    reveal_strlit("p");
    assert("b"@ =~= seq!['b'] && "ib"@ =~= seq!['i', 'b'] && ""@ =~= Seq::empty());
    assert("k"@ =~= seq!['k'] && "m"@ =~= seq!['m'] && "g"@ =~= seq!['g']);
    assert("t"@ =~= seq!['t'] && "p"@ =~= seq!['p']);
    let low = ascii_lower(suffix);
    let unit = suffix_unit(suffix);
    let len = low.len();
    if len == 0 {
        assert(low =~= ""@);
    } else {
        let tail = ascii_lower(suffix.skip(1));
        assert(tail =~= low.skip(1));
        assert(low[0] == ascii_lower_char(suffix[0]));
        if len == 1 {
            assert(tail =~= ""@);
            assert(low =~= seq![low[0]]);
            assert(low.drop_last() =~= ""@);
        } else if len == 2 {
            assert(low.skip(0) =~= low);
            assert(low =~= seq![low[0], low[1]]);
            assert(tail =~= seq![low[1]]);
            assert(low.take(0) =~= ""@);
            assert(low.drop_last() =~= seq![low[0]]);
            assert(low[0] == 'i' && low[1] == 'b' ==> low =~= "ib"@);
            assert(low[1] == 'b' ==> tail =~= "b"@);
            assert("b"@.len() == 1 && "ib"@[0] == 'i' && "b"@[0] == 'b');
        } else if len == 3 {
            assert(tail =~= seq![low[1], low[2]]);
            assert(low.take(1) =~= seq![low[0]]);
            assert(low[1] == 'i' && low[2] == 'b' ==> tail =~= "ib"@);
            assert("ib"@[0] == 'i' && "ib"@[1] == 'b');
            if tail == "ib"@ {
                assert(unit == low.take(1));
                assert(unit =~= seq![low[0]]);
                assert(unit[0] == low[0]);
            } else {
                assert(unit.len() >= 2);
            }
            assert(low.len() != "ib"@.len() && low.len() != "b"@.len());
            assert(tail.len() != "b"@.len());
            assert(unit_factor(unit) is Some <==> is_size_suffix(suffix));
        } else {
            assert(unit.len() >= 2);
        }
    }
    if !is_size_suffix(suffix) && !is_digit(suffix[0]) && !is_whitespace(suffix.last()) {
        lemma_size_parts(n, suffix);
    }
}

/// A path is valid if and only if it is not empty and all its components are valid.
pub proof fn law_path_components(path: Seq<char>)
    ensures
        path_check(path) is Ok <==> is_path(path),
{
    lemma_components(split(path, '/'));
    lemma_split_len(path, '/');
    if path.len() == 0 {
        assert(split(path, '/').len() > 0);
        if is_path(path) {
            assert(is_component(split(path, '/')[0]));
        }
    }
}

/// Components are valid in turn if and only if all of them are.
proof fn lemma_components(list: Seq<Seq<char>>)
    ensures
        components_check(list) is Ok <==> (forall|i: int|
            0 <= i < list.len() ==> is_component(#[trigger] list[i])),
    decreases list.len(),
{
    if list.len() > 0 {
        let rest = list.drop_last();
        lemma_components(rest);
        if components_check(list) is Ok {
            assert forall|i: int| 0 <= i < list.len() implies is_component(#[trigger] list[i]) by {
                if i < rest.len() {
                    assert(list[i] == rest[i]);
                }
            }
        } else if components_check(rest) is Err {
            let i = choose|i: int| 0 <= i < rest.len() && !is_component(#[trigger] rest[i]);
            assert(list[i] == rest[i]);
        } else {
            assert(!is_component(list[list.len() - 1]));
        }
    }
}

/// Properties which may be passed on, with values which may be.
pub open spec fn allowed_props(props: Seq<(Seq<char>, Seq<char>)>) -> bool {
    forall|i: int|
        0 <= i < props.len() ==> is_prop_key((#[trigger] props[i]).0) && is_prop_value(props[i].1)
}

/// The block size, if there is one, is valid.
pub open spec fn allowed_block(block: Option<u64>) -> bool {
    block matches Some(size) ==> is_volblocksize(size)
}

proof fn lemma_pool_pairs(opts: PoolOptsView, pairs: Seq<Seq<char>>)
    requires
        allowed_props(opts.props),
        allowed_block(opts.volblocksize),
    ensures
        with_pool_pairs(opts, pairs) matches Ok(res) ==> allowed_props(res.props) && allowed_block(
            res.volblocksize,
        ) && res.parent == opts.parent && res.disks == opts.disks,
    decreases pairs.len(),
{
    if pairs.len() > 0 {
        lemma_pool_pairs(opts, pairs.drop_last());
    }
}

/// The options of a pool name a valid parent dataset, keep the disks entry verbatim and hold only
/// what may be passed on; reading them from the disks entry they keep gives the same options.
pub proof fn law_pool_options(disks: Seq<Seq<char>>)
    ensures
        pool_opts_of_disks(disks) matches Ok(opts) ==> {
            &&& disks == seq![opts.disks]
            &&& is_path(opts.parent)
            &&& allowed_props(opts.props)
            &&& allowed_block(opts.volblocksize)
            &&& pool_opts_of_disks(seq![opts.disks]) == Ok::<PoolOptsView, ErrorView>(opts)
        },
{
    if let Ok(opts) = pool_opts_of_disks(disks) {
        let (parent, query) = match split_once(disks[0], '?') {
            None => (disks[0], Seq::empty()),
            Some(parts) => parts,
        };
        law_path_components(parent);
        lemma_pool_pairs(
            PoolOptsView {
                parent,
                disks: disks[0],
                volblocksize: None,
                quota: None,
                props: Seq::empty(),
            },
            nonempty(split(query, '&')),
        );
        assert(disks =~= seq![opts.disks]);
    }
}

/// The options of a replica hold only what may be passed on, and a request with an unknown key is
/// refused.
pub proof fn law_replica_options(properties: Seq<(Seq<char>, Seq<char>)>)
    ensures
        zvol_opts_of(properties) matches Ok(opts) ==> {
            &&& allowed_props(opts.props)
            &&& allowed_block(opts.volblocksize)
            &&& forall|i: int|
                0 <= i < properties.len() ==> is_prop_key((#[trigger] properties[i]).0)
                    || properties[i].0 == "volblocksize"@
        },
    decreases properties.len(),
{
    if properties.len() > 0 {
        let rest = properties.drop_last();
        law_replica_options(rest);
        if let Ok(opts) = zvol_opts_of(properties) {
            assert forall|i: int| 0 <= i < properties.len() implies is_prop_key(
                (#[trigger] properties[i]).0,
            ) || properties[i].0 == "volblocksize"@ by {
                if i < rest.len() {
                    assert(properties[i] == rest[i]);
                }
            }
        }
    }
}

/// The block size of a replica is the one asked for the replica, or else the default of its pool.
/// Either way it is valid.
pub proof fn law_replica_overrides_pool(pool: PoolView, args: ReplicaArgs)
    ensures
        create_block(pool, args) matches Ok((opts, block)) ==> {
            &&& zvol_opts_of(text_pairs(args.properties@)) == Ok::<ZvolOptsView, ErrorView>(opts)
            &&& block == (match opts.volblocksize {
                Some(size) => size,
                None => pool.volblocksize,
            })
            &&& is_volblocksize(block)
        },
{
}

/// The default block size of a pool is valid.
pub proof fn law_default_block(disks: Seq<Seq<char>>, cluster_size: Option<u32>)
    ensures
        pool_opts_of_disks(disks) matches Ok(opts) ==> (volblocksize_default(cluster_size, opts)
            matches Ok(block) ==> is_volblocksize(block)),
{
    law_pool_options(disks);
    reveal_with_fuel(is_power_of_two, 16);
    assert(is_volblocksize(DEFAULT_VOLBLOCKSIZE));
}

/// An error is reported to a remote caller and as a system error number alike: what was invalid,
/// missing, existing already or short of space is told apart in both.
pub proof fn law_error_codes(error: ErrorView)
    ensures
        error.status_code() == StatusCode::InvalidArgument <==> error.errno() == Errno::EINVAL,
        error.status_code() == StatusCode::NotFound <==> error.errno() == Errno::ENOENT,
        error.status_code() == StatusCode::AlreadyExists <==> error.errno() == Errno::EEXIST,
        error.status_code() == StatusCode::ResourceExhausted <==> error.errno() == Errno::ENOSPC,
{
}

/// A size in a unit is that many times the unit, and each unit is 1024 times the one before.
pub proof fn law_unit_sizes(n: u64, suffix: Seq<char>)
    requires
        is_size_suffix(suffix),
        suffix.len() > 0 ==> !is_digit(suffix[0]) && !is_whitespace(suffix.last()),
    ensures
        ({
            let letter = if suffix.len() > 0 {
                ascii_lower_char(suffix[0])
            } else {
                ' '
            };
            let factor: int = if letter == 'k' {
                1024
            } else if letter == 'm' {
                1024int * 1024
            } else if letter == 'g' {
                1024int * 1024 * 1024
            } else if letter == 't' {
                1024int * 1024 * 1024 * 1024
            } else if letter == 'p' {
                1024int * 1024 * 1024 * 1024 * 1024
            } else {
                1
            };
            let size = size_of_text(decimal(n as nat) + suffix);
            &&& n * factor <= u64::MAX ==> size == Ok::<u64, ErrorView>((n * factor) as u64)
            &&& n * factor > u64::MAX ==> size is Err
        }),
{
    law_size_suffixes(n, suffix);
    lemma_size_parts(n, suffix);
    reveal_strlit("");
    reveal_strlit("b");
    reveal_strlit("ib");
    reveal_strlit("k");
    reveal_strlit("m");
    reveal_strlit("g");
    reveal_strlit("t");
    reveal_strlit("p");
    let low = ascii_lower(suffix);
    let unit = suffix_unit(suffix);
    if suffix.len() > 0 {
        assert(low[0] == ascii_lower_char(suffix[0]));
        assert(unit.len() > 0 ==> unit[0] == low[0]);
        if is_size_tail(suffix) {
            assert(low.len() <= 2 && (low[0] == 'b' || low[0] == 'i'));
            if low.len() == 2 {
                assert(low.skip(0) =~= low);
                assert(low.take(0) =~= ""@);
                assert(unit =~= ""@);
            } else {
                assert(low.drop_last() =~= ""@);
                assert(unit =~= ""@);
            }
        } else {
            assert(is_unit_letter(suffix[0]));
            assert("b"@ =~= seq!['b'] && "ib"@ =~= seq!['i', 'b']);
            if unit.len() == 0 {
                if low.len() == 1 {
                    assert(low =~= "b"@);
                } else {
                    assert(low.skip(0) =~= low);
                }
            }
        }
    } else {
        assert(low =~= ""@);
        assert(unit =~= ""@);
    }
}

/// White space around a size does not matter.
pub proof fn law_size_trimmed(before: Seq<char>, n: u64, suffix: Seq<char>, after: Seq<char>)
    requires
        is_blank(before),
        is_blank(after),
        suffix.len() > 0 ==> !is_digit(suffix[0]) && !is_whitespace(suffix.last()),
        size_of_text(decimal(n as nat) + suffix) is Ok,
    ensures
        size_of_text(before + (decimal(n as nat) + suffix) + after) == size_of_text(
            decimal(n as nat) + suffix,
        ),
{
    let text = decimal(n as nat) + suffix;
    lemma_size_parts(n, suffix);
    lemma_decimal(n as nat);
    assert(text[0] == decimal(n as nat)[0]);
    assert(text.last() == if suffix.len() > 0 {
        suffix.last()
    } else {
        decimal(n as nat).last()
    });
    assert(is_digit(decimal(n as nat)[decimal(n as nat).len() - 1]));
    assert(is_digit(decimal(n as nat)[0]));
    law_trim(before, text, after);
}

/// A block size is a power of two from 512 to 131072.
pub proof fn law_block_sizes(size: u64)
    ensures
        is_volblocksize(size) <==> size == 512 || size == 1024 || size == 2048 || size == 4096
            || size == 8192 || size == 16384 || size == 32768 || size == 65536 || size == 131072,
{
    reveal_with_fuel(is_power_of_two, 20);
}

/// The option is known, and its value is one that it may have.
pub open spec fn is_option(key: Seq<char>, value: Seq<char>) -> bool {
    if key == "volblocksize"@ {
        size_of_text(value) matches Ok(size) && is_volblocksize(size)
    } else {
        (key == "compression"@ || key == "dedup"@ || key == "logbias"@ || key == "sync"@)
            && is_prop_value(value)
    }
}

/// The options which are passed on to zfs as they are.
pub open spec fn passed_on(list: Seq<(Seq<char>, Seq<char>)>) -> Seq<(Seq<char>, Seq<char>)> {
    list.filter(
        |p: (Seq<char>, Seq<char>)| p.0 != "volblocksize"@ && p.0 != "quota"@,
    )
}

/// The size is that of the last option with the key; there is none where there is no such option.
pub open spec fn last_size(
    list: Seq<(Seq<char>, Seq<char>)>,
    key: Seq<char>,
    size: Option<u64>,
) -> bool {
    &&& forall|i: int|
        0 <= i < list.len() && (#[trigger] list[i]).0 == key && (forall|j: int|
            i < j < list.len() ==> (#[trigger] list[j]).0 != key) ==> size is Some && size_of_text(
            list[i].1,
        ) == Ok::<u64, ErrorView>(size->0)
    &&& (forall|i: int| 0 <= i < list.len() ==> (#[trigger] list[i]).0 != key) ==> size is None
}

proof fn lemma_replica_option(opts: ZvolOptsView, pair: (Seq<char>, Seq<char>))
    ensures
        with_zvol_pair(opts, pair) is Ok <==> is_option(pair.0, pair.1),
        with_zvol_pair(opts, pair) matches Ok(next) ==> if pair.0 == "volblocksize"@ {
            next.props == opts.props && size_of_text(pair.1) is Ok && next.volblocksize == Some(
                size_of_text(pair.1)->Ok_0,
            )
        } else {
            pair.0 != "quota"@ && next.props == opts.props.push(pair) && next.volblocksize
                == opts.volblocksize
        },
{
    lemma_option_keys();
}

/// The options of a replica are taken exactly when all of them are known and valid. Each of them is
/// passed on, in order, but for the block size, the last of which counts.
pub proof fn law_replica_options_kept(properties: Seq<(Seq<char>, Seq<char>)>)
    ensures
        zvol_opts_of(properties) is Ok <==> forall|i: int|
            0 <= i < properties.len() ==> is_option(
                (#[trigger] properties[i]).0,
                properties[i].1,
            ),
        zvol_opts_of(properties) matches Ok(opts) ==> opts.props == passed_on(properties)
            && last_size(properties, "volblocksize"@, opts.volblocksize),
    decreases properties.len(),
{
    let pass = |p: (Seq<char>, Seq<char>)| p.0 != "volblocksize"@ && p.0 != "quota"@;
    if properties.len() == 0 {
        assert(passed_on(properties) =~= Seq::empty()) by {
            reveal(Seq::filter);
        }
    } else {
        let init = properties.drop_last();
        let n = init.len() as int;
        law_replica_options_kept(init);
        assert(properties[n] == properties.last());
        assert(passed_on(properties) == if pass(properties.last()) {
            passed_on(init).push(properties.last())
        } else {
            passed_on(init)
        }) by {
            reveal(Seq::filter);
        }
        if let Ok(before) = zvol_opts_of(init) {
            lemma_replica_option(before, properties.last());
        }
        if forall|i: int|
            0 <= i < properties.len() ==> is_option((#[trigger] properties[i]).0, properties[i].1) {
            assert forall|i: int| 0 <= i < n implies is_option((#[trigger] init[i]).0, init[i].1) by {
                assert(init[i] == properties[i]);
            }
        }
        if let Ok(opts) = zvol_opts_of(properties) {
            assert forall|i: int| 0 <= i < properties.len() implies is_option(
                (#[trigger] properties[i]).0,
                properties[i].1,
            ) by {
                if i < n {
                    assert(properties[i] == init[i]);
                }
            }
            lemma_last_size(properties, "volblocksize"@, zvol_opts_of(init)->Ok_0.volblocksize);
        }
    }
}

/// The sizes with one more option.
proof fn lemma_last_size(list: Seq<(Seq<char>, Seq<char>)>, key: Seq<char>, before: Option<u64>)
    requires
        list.len() > 0,
        last_size(list.drop_last(), key, before),
    ensures
        list.last().0 != key ==> last_size(list, key, before),
        list.last().0 == key && size_of_text(list.last().1) is Ok ==> last_size(
            list,
            key,
            Some(size_of_text(list.last().1)->Ok_0),
        ),
{
    let init = list.drop_last();
    let n = init.len() as int;
    assert(list[n] == list.last());
    if list.last().0 != key {
        assert forall|i: int|
            0 <= i < list.len() && (#[trigger] list[i]).0 == key && (forall|j: int|
                i < j < list.len() ==> (#[trigger] list[j]).0 != key) implies before is Some
            && size_of_text(list[i].1) == Ok::<u64, ErrorView>(before->0) by {
            assert(i < n);
            assert(init[i] == list[i]);
            assert forall|j: int| i < j < init.len() implies (#[trigger] init[j]).0 != key by {
                assert(list[j] == init[j]);
            }
        }
        if forall|i: int| 0 <= i < list.len() ==> (#[trigger] list[i]).0 != key {
            assert forall|i: int| 0 <= i < init.len() implies (#[trigger] init[i]).0 != key by {
                assert(list[i] == init[i]);
            }
        }
    } else {
        assert forall|i: int|
            0 <= i < list.len() && (#[trigger] list[i]).0 == key && (forall|j: int|
                i < j < list.len() ==> (#[trigger] list[j]).0 != key) implies i == n by {
            if i < n {
                assert(list[n].0 != key);
            }
        }
    }
}

/// The keys with sizes are not among those which are passed on.
proof fn lemma_option_keys()
    ensures
        "volblocksize"@ != "quota"@,
        "compression"@ != "quota"@ && "dedup"@ != "quota"@ && "logbias"@ != "quota"@ && "sync"@
            != "quota"@,
        "compression"@ != "volblocksize"@ && "dedup"@ != "volblocksize"@ && "logbias"@
            != "volblocksize"@ && "sync"@ != "volblocksize"@,
{
    reveal_strlit("volblocksize");
    reveal_strlit("quota");
    reveal_strlit("compression");
    reveal_strlit("dedup");
    reveal_strlit("logbias");
    reveal_strlit("sync");
    assert("dedup"@[0] == 'd' && "quota"@[0] == 'q');
    assert("volblocksize"@.len() == 12 && "compression"@.len() == 11);
}

/// The option of a pool is known, and its value is one that it may have.
pub open spec fn is_pool_option(key: Seq<char>, value: Seq<char>) -> bool {
    if key == "quota"@ {
        size_of_text(value) is Ok
    } else {
        is_option(key, value)
    }
}

/// The pairs are written as key=value.
pub open spec fn are_written(texts: Seq<Seq<char>>, pairs: Seq<(Seq<char>, Seq<char>)>) -> bool {
    &&& texts.len() == pairs.len()
    &&& forall|i: int|
        0 <= i < pairs.len() ==> #[trigger] texts[i] == pairs[i].0 + seq!['='] + pairs[i].1
    &&& forall|i: int| 0 <= i < pairs.len() ==> !(#[trigger] pairs[i]).0.contains('=')
}

/// The options of a pool are taken exactly when all of them are known and valid. Each of them is
/// passed on, in order, but for the block size and the quota, the last of which count.
pub proof fn law_pool_options_kept(
    opts: PoolOptsView,
    texts: Seq<Seq<char>>,
    pairs: Seq<(Seq<char>, Seq<char>)>,
)
    requires
        are_written(texts, pairs),
        opts.volblocksize is None,
        opts.quota is None,
    ensures
        with_pool_pairs(opts, texts) is Ok <==> forall|i: int|
            0 <= i < pairs.len() ==> is_pool_option((#[trigger] pairs[i]).0, pairs[i].1),
        with_pool_pairs(opts, texts) matches Ok(res) ==> {
            &&& res.parent == opts.parent
            &&& res.disks == opts.disks
            &&& res.props == opts.props + passed_on(pairs)
            &&& last_size(pairs, "volblocksize"@, res.volblocksize)
            &&& last_size(pairs, "quota"@, res.quota)
        },
    decreases pairs.len(),
{
    let pass = |p: (Seq<char>, Seq<char>)| p.0 != "volblocksize"@ && p.0 != "quota"@;
    lemma_option_keys();
    if pairs.len() == 0 {
        assert(passed_on(pairs) =~= Seq::empty()) by {
            reveal(Seq::filter);
        }
        assert(opts.props + passed_on(pairs) =~= opts.props);
    } else {
        let init = pairs.drop_last();
        let init_texts = texts.drop_last();
        let n = init.len() as int;
        assert forall|i: int| 0 <= i < n implies #[trigger] init_texts[i] == init[i].0 + seq!['=']
            + init[i].1 by {
            assert(init_texts[i] == texts[i]);
        }
        assert forall|i: int| 0 <= i < n implies !(#[trigger] init[i]).0.contains('=') by {
            assert(init[i] == pairs[i]);
        }
        law_pool_options_kept(opts, init_texts, init);
        assert(passed_on(pairs) == if pass(pairs.last()) {
            passed_on(init).push(pairs.last())
        } else {
            passed_on(init)
        }) by {
            reveal(Seq::filter);
        }
        let (key, value) = pairs[n];
        let text = texts[n];
        let at = key.len() as int;
        assert(!pairs[n].0.contains('='));
        assert(text[at] == '=');
        assert forall|j: int| 0 <= j < at implies text[j] != '=' by {
            assert(text[j] == key[j]);
        }
        lemma_split_once_at(text, '=', at);
        assert(text.take(at) =~= key);
        assert(text.skip(at + 1) =~= value);
        if forall|i: int|
            0 <= i < pairs.len() ==> is_pool_option((#[trigger] pairs[i]).0, pairs[i].1) {
            assert forall|i: int| 0 <= i < n implies is_pool_option(
                (#[trigger] init[i]).0,
                init[i].1,
            ) by {
                assert(init[i] == pairs[i]);
            }
        }
        if let Ok(res) = with_pool_pairs(opts, texts) {
            assert forall|i: int| 0 <= i < pairs.len() implies is_pool_option(
                (#[trigger] pairs[i]).0,
                pairs[i].1,
            ) by {
                if i < n {
                    assert(pairs[i] == init[i]);
                }
            }
            let before = with_pool_pairs(opts, init_texts)->Ok_0;
            lemma_last_size(pairs, "volblocksize"@, before.volblocksize);
            lemma_last_size(pairs, "quota"@, before.quota);
            assert(res.props =~= opts.props + passed_on(pairs));
        }
    }
}

/// A disks entry is a parent dataset and, after a question mark, the options written as key=value
/// and separated by ampersands. Reading it gives all of them.
pub proof fn law_disks_entry(
    parent: Seq<char>,
    texts: Seq<Seq<char>>,
    pairs: Seq<(Seq<char>, Seq<char>)>,
)
    requires
        path_check(parent) is Ok,
        are_written(texts, pairs),
        pairs.len() > 0,
        forall|i: int| 0 <= i < texts.len() ==> !(#[trigger] texts[i]).contains('&'),
    ensures
        ({
            let disk = parent + seq!['?'] + join(texts, seq!['&']);
            &&& pool_opts_of_disks(seq![parent]) is Ok
            &&& pool_opts_of_disks(seq![parent]) == Ok::<PoolOptsView, ErrorView>(
                PoolOptsView {
                    parent,
                    disks: parent,
                    volblocksize: None,
                    quota: None,
                    props: Seq::empty(),
                },
            )
            &&& pool_opts_of_disks(seq![disk]) is Ok <==> forall|i: int|
                0 <= i < pairs.len() ==> is_pool_option((#[trigger] pairs[i]).0, pairs[i].1)
            &&& pool_opts_of_disks(seq![disk]) matches Ok(opts) ==> opts.parent == parent
                && opts.disks == disk && opts.props == passed_on(pairs) && last_size(
                pairs,
                "volblocksize"@,
                opts.volblocksize,
            ) && last_size(pairs, "quota"@, opts.quota)
        }),
{
    let query = join(texts, seq!['&']);
    let disk = parent + seq!['?'] + query;
    let at = parent.len() as int;
    law_path_components(parent);
    lemma_path_free(parent);
    assert(disk[at] == '?');
    assert forall|j: int| 0 <= j < at implies disk[j] != '?' by {
        assert(disk[j] == parent[j]);
    }
    lemma_split_once_at(disk, '?', at);
    assert(disk.take(at) =~= parent);
    assert(disk.skip(at + 1) =~= query);
    lemma_split_join(texts, '&');
    assert forall|i: int| 0 <= i < texts.len() implies (#[trigger] texts[i]).len() > 0 by {
        assert(texts[i] == pairs[i].0 + seq!['='] + pairs[i].1);
    }
    lemma_nonempty_all(texts);
    let start = PoolOptsView {
        parent,
        disks: disk,
        volblocksize: None,
        quota: None,
        props: Seq::empty(),
    };
    law_pool_options_kept(start, texts, pairs);
    assert(start.props + passed_on(pairs) =~= passed_on(pairs));
    law_split_once(parent, '?');
    let none = Seq::<char>::empty();
    assert(split(none, '&') =~= seq![none]);
    reveal(Seq::filter);
    let keep = |s: Seq<char>| s.len() > 0;
    assert(seq![none].drop_last() =~= Seq::empty());
    assert(seq![none].drop_last().filter(keep) =~= Seq::empty());
    assert(nonempty(seq![none]) =~= Seq::empty());
}

/// A valid path holds no question mark.
proof fn lemma_path_free(path: Seq<char>)
    requires
        is_path(path),
    ensures
        !path.contains('?'),
{
    law_split(path, '/');
    let pieces = split(path, '/');
    assert forall|i: int| 0 <= i < pieces.len() implies !(#[trigger] pieces[i]).contains('?') by {
        assert(is_component(pieces[i]));
        if pieces[i].contains('?') {
            let k = choose|k: int| 0 <= k < pieces[i].len() && pieces[i][k] == '?';
            assert(pieces[i][k] == '?');
        }
    }
    assert(!seq!['/'].contains('?'));
    lemma_join_free(pieces, seq!['/'], '?');
}

/// A name is valid if and only if it starts with a letter or a digit and goes on with letters,
/// digits and the characters "_", "-", "." and ":".
pub proof fn law_components(name: Seq<char>)
    ensures
        component_check(name) is Ok <==> name.len() > 0 && is_alphanumeric(name[0]) && forall|i: int|
            0 < i < name.len() ==> is_alphanumeric(#[trigger] name[i]) || name[i] == '_' || name[i]
                == '-' || name[i] == '.' || name[i] == ':',
        component_check(name) matches Err(error) ==> error is InvalidName
            && error->InvalidName_name == name,
{
}

/// The default block size of a pool is the one that is asked for, else that of the disks entry, else
/// 16384.
pub proof fn law_default_block_choice(cluster_size: Option<u32>, opts: PoolOptsView)
    ensures
        cluster_size matches Some(size) ==> (volblocksize_default(cluster_size, opts) is Ok
            <==> is_volblocksize(size as u64)) && (is_volblocksize(size as u64)
            ==> volblocksize_default(cluster_size, opts) == Ok::<u64, ErrorView>(size as u64)),
        cluster_size is None ==> volblocksize_default(cluster_size, opts) == Ok::<u64, ErrorView>(
            match opts.volblocksize {
                Some(size) => size,
                None => 16384,
            },
        ),
{
}

} // verus!
