//! The stream partitioner: cuts the symbols of an exchange into subscription groups
//! of bounded size, and writes each group as the path of its streams.

use vstd::prelude::*;
use vstd::string::*;
use vstd::arithmetic::div_mod::lemma_fundamental_div_mod_converse;
use crate::text::{join, joined, lowercase, to_lowercase};

verus! {

/// How many streams one connection to Binance carries at most.
pub const MAX_STREAMS_PER_CONNECTION: usize = 300;

/// The number of groups that `n` items fill, `m` to a group: `n / m`, rounded up.
pub open spec fn group_count(n: nat, m: nat) -> nat {
    ((n + m - 1) / (m as int)) as nat
}

/// Where group `k` ends among `n` items, `m` to a group.
pub open spec fn group_end(n: nat, m: nat, k: int) -> int {
    if (k + 1) * m <= n {
        (k + 1) * m
    } else {
        n as int
    }
}

/// Group `k` of `all`, `m` to a group: the items from position `k * m` on, up to `m`
/// of them.
pub open spec fn group_at<T>(all: Seq<T>, m: nat, k: int) -> Seq<T> {
    all.subrange(k * m, group_end(all.len(), m, k))
}

/// The members of `groups`, one group after the other.
pub open spec fn concatenation<T>(groups: Seq<Seq<T>>) -> Seq<T>
    decreases groups.len(),
{
    if groups.len() == 0 {
        Seq::empty()
    } else {
        concatenation(groups.drop_last()) + groups.last()
    }
}

/// The name of the ticker stream of a symbol.
pub open spec fn stream_name(symbol: Seq<char>) -> Seq<char> {
    lowercase(symbol) + "@ticker"@
}

/// The path under which the ticker streams of a group are read together.
pub open spec fn stream_path(group: Seq<Seq<char>>) -> Seq<char> {
    joined(group.map_values(|symbol: Seq<char>| stream_name(symbol)), "/"@)
}

/// A count of groups of which all but the last are full, and which together hold at
/// least `n` items, is `n / m` rounded up.
proof fn lemma_group_count(n: nat, m: nat, groups: nat)
    requires
        m > 0,
        groups * m >= n,
        groups > 0 ==> (groups - 1) * m < n,
    ensures
        groups == group_count(n, m),
{
    if groups == 0 {
        assert(n == 0) by (nonlinear_arith)
            requires
                groups == 0,
                groups * m >= n,
        ;
        lemma_fundamental_div_mod_converse(m - 1, m as int, 0, m - 1);
    } else {
        let rest = n + m - 1 - groups * m;
        assert(0 <= rest < m) by (nonlinear_arith)
            requires
                rest == n + m - 1 - groups * m,
                groups * m >= n,
                (groups - 1) * m < n,
        ;
        lemma_fundamental_div_mod_converse(n + m - 1, m as int, groups as int, rest);
    }
}

/// Cuts `all_symbols` into consecutive groups of `max_group_size` symbols, the last
/// of which may hold fewer.
pub fn partition(all_symbols: &Vec<String>, max_group_size: usize) -> (groups: Vec<Vec<String>>)
    requires
        max_group_size > 0,
    ensures
        groups.len() == group_count(all_symbols.len() as nat, max_group_size as nat),
        forall|k: int|
            0 <= k < groups.len() ==> (#[trigger] groups[k])@ == group_at(
                all_symbols@,
                max_group_size as nat,
                k,
            ),
        forall|k: int|
            0 <= k < groups.len() ==> 0 < (#[trigger] groups[k]).len() <= max_group_size,
        concatenation(groups@.map_values(|g: Vec<String>| g@)) == all_symbols@,
{
    let n: usize = all_symbols.len();
    let m: usize = max_group_size;
    let mut groups: Vec<Vec<String>> = Vec::new();
    let mut start: usize = 0;
    assert(groups.len() * m == 0) by (nonlinear_arith)
        requires
            groups.len() == 0,
    ;
    while start < n
        invariant
            m > 0,
            m == max_group_size,
            n == all_symbols.len(),
            start <= n,
            start == if groups.len() * m <= n {
                groups.len() * m
            } else {
                n as int
            },
            groups.len() > 0 ==> (groups.len() - 1) * m < n,
            forall|k: int|
                0 <= k < groups.len() ==> (#[trigger] groups[k])@ == group_at(
                    all_symbols@,
                    m as nat,
                    k,
                ),
            forall|k: int| 0 <= k < groups.len() ==> 0 < (#[trigger] groups[k]).len() <= m,
            concatenation(groups@.map_values(|g: Vec<String>| g@)) == all_symbols@.take(
                start as int,
            ),
        decreases n - start,
    {
        let end: usize = if n - start > m {
            start + m
        } else {
            n
        };
        let ghost done = groups.len() as int;
        proof {
            assert((done + 1) * m == done * m + m) by (nonlinear_arith);
            assert(start == done * m);
            assert(end == group_end(n as nat, m as nat, done));
        }
        let mut group: Vec<String> = Vec::new();
        let mut i: usize = start;
        while i < end
            invariant
                start <= i <= end,
                end <= n,
                n == all_symbols.len(),
                group@ == all_symbols@.subrange(start as int, i as int),
            decreases end - i,
        {
            group.push(all_symbols[i].clone());
            proof {
                assert(group@ =~= all_symbols@.subrange(start as int, i + 1));
            }
            i += 1;
        }
        proof {
            let before = groups@.map_values(|g: Vec<String>| g@);
            let after = groups@.push(group).map_values(|g: Vec<String>| g@);
            assert(after.drop_last() =~= before);
            assert(after.last() == group@);
            assert(all_symbols@.take(start as int) + group@ =~= all_symbols@.take(end as int));
        }
        groups.push(group);
        start = end;
    }
    proof {
        assert(groups.len() * m >= n);
        lemma_group_count(n as nat, m as nat, groups.len() as nat);
        assert(all_symbols@.take(n as int) =~= all_symbols@);
    }
    groups
}

/// Writes the path under which the ticker streams of a group are read together:
/// each symbol in lower case with `@ticker` behind it, and `/` between them.
pub fn render_group(group: &Vec<String>) -> (r: String)
    ensures
        r@ == stream_path(group@.map_values(|s: String| s@)),
{
    let ghost symbols = group@.map_values(|s: String| s@);
    let mut names: Vec<String> = Vec::new();
    let mut i: usize = 0;
    while i < group.len()
        invariant
            i <= group.len(),
            symbols == group@.map_values(|s: String| s@),
            names@.map_values(|s: String| s@) == symbols.take(i as int).map_values(
                |symbol: Seq<char>| stream_name(symbol),
            ),
        decreases group.len() - i,
    {
        let mut name = to_lowercase(group[i].as_str());
        name.append("@ticker");
        proof {
            let before = symbols.take(i as int).map_values(|symbol: Seq<char>| stream_name(symbol));
            let after = symbols.take(i + 1).map_values(|symbol: Seq<char>| stream_name(symbol));
            assert(symbols[i as int] == group@[i as int]@);
            assert(name@ == stream_name(symbols[i as int]));
            assert(after =~= before.push(name@));
            assert(names@.push(name).map_values(|s: String| s@) =~= names@.map_values(
                |s: String| s@,
            ).push(name@));
        }
        names.push(name);
        i += 1;
    }
    proof {
        assert(symbols.take(group.len() as int) =~= symbols);
    }
    join(&names, "/")
}

/// The stream paths of the subscription groups of `symbols`: one path for each
/// group of up to `MAX_STREAMS_PER_CONNECTION` symbols, in the order of the symbols.
pub fn get_chunked_ws_streams(symbols: &Vec<String>) -> (paths: Vec<String>)
    ensures
        paths.len() == group_count(symbols.len() as nat, MAX_STREAMS_PER_CONNECTION as nat),
        forall|k: int|
            0 <= k < paths.len() ==> (#[trigger] paths[k])@ == stream_path(
                group_at(symbols@, MAX_STREAMS_PER_CONNECTION as nat, k).map_values(
                    |s: String| s@,
                ),
            ),
{
    let groups = partition(symbols, MAX_STREAMS_PER_CONNECTION);
    let mut paths: Vec<String> = Vec::new();
    let mut k: usize = 0;
    while k < groups.len()
        invariant
            k <= groups.len(),
            paths.len() == k,
            forall|j: int|
                0 <= j < groups.len() ==> (#[trigger] groups[j])@ == group_at(
                    symbols@,
                    MAX_STREAMS_PER_CONNECTION as nat,
                    j,
                ),
            forall|j: int|
                0 <= j < k ==> (#[trigger] paths[j])@ == stream_path(
                    group_at(symbols@, MAX_STREAMS_PER_CONNECTION as nat, j).map_values(
                        |s: String| s@,
                    ),
                ),
        decreases groups.len() - k,
    {
        let path = render_group(&groups[k]);
        paths.push(path);
        k += 1;
    }
    paths
}

} // verus!
