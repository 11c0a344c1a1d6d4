//! A TeeBench command line that can be passed around and copied before it is run.

use vstd::prelude::*;
use crate::data_types::{Platform, TeebenchArgs};
use crate::args::{args_from_occurrences, parse_args};
use crate::text::{clone_strings, join_strings, joined};

verus! {

/// A TeeBench command line: the platform's executable and its arguments.
#[derive(Debug, Clone, PartialEq, Eq)]
pub struct Commandline {
    pub app: Platform,
    pub args: Vec<String>,
}

/// What a command line is: the platform and the text of each argument.
pub type CommandlineView = (Platform, Seq<Seq<char>>);

impl View for Commandline {
    type V = CommandlineView;

    open spec fn view(&self) -> CommandlineView {
        (self.app, self.args.deep_view())
    }
}

/// The views of a list of command lines.
pub open spec fn cmds_view(cmds: Seq<Commandline>) -> Seq<CommandlineView> {
    cmds.map_values(|c: Commandline| c@)
}

/// The command line as it is shown: the platform's executable, a space and the arguments
/// separated by spaces.
pub open spec fn command_text(c: CommandlineView) -> Seq<char> {
    c.0.app_name() + seq![' '] + joined(c.1, seq![' '])
}

/// `c` with its last argument replaced by `v`.
pub open spec fn replace_last(c: CommandlineView, v: Seq<char>) -> CommandlineView {
    (c.0, c.1.update(c.1.len() - 1, v))
}

/// The list that `double_cmds_with_different_arg_value` makes of `cmds` and `values`:
/// the commands themselves, then for each value in turn a copy of all of them with
/// the last argument replaced by that value.
pub open spec fn doubled(cmds: Seq<CommandlineView>, values: Seq<Seq<char>>) -> Seq<CommandlineView>
    decreases values.len(),
{
    if values.len() == 0 {
        cmds
    } else {
        doubled(cmds, values.drop_last()) + cmds.map_values(
            |c: CommandlineView| replace_last(c, values.last()),
        )
    }
}

/// Position `j * l + i`: item `i` of block `j` when blocks have `l` items.
pub open spec fn block_index(j: int, l: int, i: int) -> int {
    j * l + i
}

/// `doubled` has one block of `cmds.len()` commands per value and one for the given commands,
/// and item `i` of block `j` is command `i` with its last argument replaced by value `j - 1`.
pub proof fn lemma_doubled(cmds: Seq<CommandlineView>, values: Seq<Seq<char>>)
    ensures
        doubled(cmds, values).len() == cmds.len() * (values.len() + 1),
        forall|i: int, j: int|
            0 <= i < cmds.len() && 0 <= j <= values.len() ==> #[trigger] doubled(cmds, values)[block_index(j, cmds.len() as int, i)]
                == if j == 0 { cmds[i] } else { replace_last(cmds[i], values[j - 1]) },
    decreases values.len(),
{
    let l = cmds.len() as int;
    let n = values.len() as int;
    if n == 0 {
        assert forall|i: int, j: int|
            0 <= i < l && 0 <= j <= n implies #[trigger] doubled(cmds, values)[block_index(j, l, i)]
                == if j == 0 { cmds[i] } else { replace_last(cmds[i], values[j - 1]) } by {
            assert(j == 0);
            assert(j * l == 0) by (nonlinear_arith)
                requires j == 0;
            assert(block_index(j, l, i) == i);
        }
    } else {
        let prev = values.drop_last();
        lemma_doubled(cmds, prev);
        assert(l * (n - 1 + 1) + l == l * (n + 1)) by (nonlinear_arith);
        assert forall|i: int, j: int|
            0 <= i < l && 0 <= j <= n implies #[trigger] doubled(cmds, values)[block_index(j, l, i)]
                == if j == 0 { cmds[i] } else { replace_last(cmds[i], values[j - 1]) } by {
            if j < n {
                assert(j * l + i < (n - 1 + 1) * l) by (nonlinear_arith)
                    requires 0 <= i < l, 0 <= j < n, 0 < l;
                assert((n - 1 + 1) * l == l * (n - 1 + 1)) by (nonlinear_arith);
                assert(doubled(cmds, prev)[block_index(j, l, i)]
                    == if j == 0 { cmds[i] } else { replace_last(cmds[i], prev[j - 1]) });
            } else {
                assert(j * l + i == l * (n - 1 + 1) + i) by (nonlinear_arith)
                    requires j == n;
            }
        }
    }
}

impl Commandline {
    /// A command line for `platform` without arguments.
    pub fn new(platform: Platform) -> (r: Self)
        ensures
            r@ == (platform, Seq::<Seq<char>>::empty()),
    {
        let r = Self { app: platform, args: Vec::new() };
        assert(r.args.deep_view() =~= Seq::<Seq<char>>::empty());
        r
    }

    /// A command line for `platform` with the given arguments.
    pub fn with_args(platform: Platform, args: &[&str]) -> (r: Self)
        ensures
            r@.0 == platform,
            r@.1 == args@.map_values(|a: &str| a@),
    {
        let mut v: Vec<String> = Vec::new();
        let mut i: usize = 0;
        while i < args.len()
            invariant
                i <= args.len(),
                v@.len() == i,
                forall|k: int| 0 <= k < i ==> #[trigger] v@[k]@ == args@[k]@,
            decreases args.len() - i,
        {
            v.push(String::from_str(args[i]));
            i = i + 1;
        }
        assert(v.deep_view() =~= args@.map_values(|a: &str| a@));
        Self { app: platform, args: v }
    }

    /// Appends the option `name` followed by its value.
    pub fn add_args(&mut self, name: &str, value: &str)
        ensures
            final(self)@ == (old(self)@.0, old(self)@.1.push(name@).push(value@)),
    {
        self.args.push(String::from_str(name));
        self.args.push(String::from_str(value));
        assert(self.args.deep_view() =~= old(self)@.1.push(name@).push(value@));
    }

    /// Appends the flag `name`.
    pub fn add_flag(&mut self, name: &str)
        ensures
            final(self)@ == (old(self)@.0, old(self)@.1.push(name@)),
    {
        self.args.push(String::from_str(name));
        assert(self.args.deep_view() =~= old(self)@.1.push(name@));
    }

    /// Appends the option `name` and its value to every command line of `cmds`.
    pub fn add_args_to_all(cmds: &mut Vec<Commandline>, name: &str, value: &str)
        ensures
            final(cmds)@.len() == old(cmds)@.len(),
            forall|k: int| 0 <= k < old(cmds)@.len() ==> #[trigger] final(cmds)@[k]@ == (
                old(cmds)@[k]@.0,
                old(cmds)@[k]@.1.push(name@).push(value@),
            ),
    {
        let mut k: usize = 0;
        while k < cmds.len()
            invariant
                k <= cmds@.len(),
                cmds@.len() == old(cmds)@.len(),
                forall|i: int| k <= i < cmds@.len() ==> #[trigger] cmds@[i] == old(cmds)@[i],
                forall|i: int| 0 <= i < k ==> #[trigger] cmds@[i]@ == (
                    old(cmds)@[i]@.0,
                    old(cmds)@[i]@.1.push(name@).push(value@),
                ),
            decreases cmds@.len() - k,
        {
            let mut c = cmds[k].duplicate();
            c.add_args(name, value);
            cmds.set(k, c);
            k = k + 1;
        }
    }

    /// Appends the flag `name` to every command line of `cmds`.
    pub fn add_flag_to_all(cmds: &mut Vec<Commandline>, name: &str)
        ensures
            final(cmds)@.len() == old(cmds)@.len(),
            forall|k: int| 0 <= k < old(cmds)@.len() ==> #[trigger] final(cmds)@[k]@ == (
                old(cmds)@[k]@.0,
                old(cmds)@[k]@.1.push(name@),
            ),
    {
        let mut k: usize = 0;
        while k < cmds.len()
            invariant
                k <= cmds@.len(),
                cmds@.len() == old(cmds)@.len(),
                forall|i: int| k <= i < cmds@.len() ==> #[trigger] cmds@[i] == old(cmds)@[i],
                forall|i: int| 0 <= i < k ==> #[trigger] cmds@[i]@ == (
                    old(cmds)@[i]@.0,
                    old(cmds)@[i]@.1.push(name@),
                ),
            decreases cmds@.len() - k,
        {
            let mut c = cmds[k].duplicate();
            c.add_flag(name);
            cmds.set(k, c);
            k = k + 1;
        }
    }

    /// The TeeBench arguments this command line runs with.
    pub fn to_teebench_args(&self) -> (r: TeebenchArgs)
        requires
            parse_args(self@.1) is Ok,
        ensures
            parse_args(self@.1) matches Ok(occs) && args_from_occurrences(r, self.app, occs),
    {
        match TeebenchArgs::from_args_list(self.app, &self.args) {
            Ok(a) => a,
            Err(_) => {
                proof {
                    assert(false);
                }
                TeebenchArgs::for_throughput(crate::data_types::Algorithm::Rho, self.app, crate::data_types::Dataset::CacheFit)
            },
        }
    }

    /// The command line as it is shown: executable and arguments, separated by spaces.
    pub fn to_string(&self) -> (r: String)
        ensures
            r@ == command_text(self@),
    {
        let args = join_strings(&self.args, " ");
        proof {
            reveal_strlit(" ");
            assert(" "@ =~= seq![' ']);
        }
        let r = self.app.to_app_name().concat(" ").concat(args.as_str());
        r
    }

    /// A copy of this command line.
    pub fn duplicate(&self) -> (r: Self)
        ensures
            r@ == self@,
    {
        Self { app: self.app, args: clone_strings(&self.args) }
    }

    /// For every value in `values`, appends to `cmds` a copy of all of the given
    /// commands with their last argument replaced by that value, in the order of `values`.
    /// Example: `["./sgx -a CHT"]` with the values `["RHO"]` becomes
    /// `["./sgx -a CHT", "./sgx -a RHO"]`. There must be at least one command.
    pub fn double_cmds_with_different_arg_value(cmds: &mut Vec<Commandline>, values: &Vec<String>)
        requires
            old(cmds).len() > 0,
            values.len() > 0 ==> forall|i: int| 0 <= i < old(cmds).len() ==> #[trigger] old(cmds)@[i].args.len() > 0,
        ensures
            cmds_view(final(cmds)@) == doubled(cmds_view(old(cmds)@), values.deep_view()),
    {
        let l = cmds.len();
        let ghost orig = cmds_view(cmds@);
        let mut j: usize = 0;
        assert(cmds_view(cmds@) =~= doubled(orig, values.deep_view().subrange(0, 0)));
        assert forall|i: int| 0 <= i < l implies #[trigger] cmds@[i]@ == orig[i] by {}
        if values.len() > 0 {
            assert forall|i: int| 0 <= i < l implies #[trigger] orig[i].1.len() > 0 by {
                assert(cmds@[i]@ == orig[i]);
                assert(cmds@[i].args.len() > 0);
            }
        }
        while j < values.len()
            invariant
                j <= values.len(),
                l == orig.len(),
                cmds@.len() >= l,
                forall|i: int| 0 <= i < l ==> #[trigger] cmds@[i]@ == orig[i],
                values.len() > 0 ==> forall|i: int| 0 <= i < l ==> #[trigger] orig[i].1.len() > 0,
                cmds_view(cmds@) == doubled(orig, values.deep_view().subrange(0, j as int)),
            decreases values.len() - j,
        {
            let ghost before = cmds_view(cmds@);
            let mut i: usize = 0;
            while i < l
                invariant
                    i <= l,
                    j < values.len(),
                    l == orig.len(),
                    cmds@.len() >= l,
                    forall|k: int| 0 <= k < l ==> #[trigger] cmds@[k]@ == orig[k],
                    forall|k: int| 0 <= k < l ==> #[trigger] orig[k].1.len() > 0,
                    cmds_view(cmds@) == before + orig.subrange(0, i as int).map_values(
                        |c: CommandlineView| replace_last(c, values.deep_view()[j as int]),
                    ),
                decreases l - i,
            {
                let mut c = cmds[i].duplicate();
                assert(c@ == orig[i as int]);
                assert(orig[i as int].1.len() > 0);
                assert(c.args.deep_view().len() == c.args@.len());
                let last = c.args.len() - 1;
                let v = values[j].clone();
                assert(v@ == values.deep_view()[j as int]);
                c.args.set(last, v);
                proof {
                    assert(c.args.deep_view() =~= orig[i as int].1.update(last as int, values.deep_view()[j as int]));
                    assert(c@ == replace_last(orig[i as int], values.deep_view()[j as int]));
                }
                let ghost pre = cmds@;
                cmds.push(c);
                proof {
                    assert(cmds@ == pre.push(c));
                    assert(cmds_view(cmds@) =~= cmds_view(pre).push(c@));
                    assert forall|k: int| 0 <= k < l implies #[trigger] cmds@[k]@ == orig[k] by {
                        assert(cmds@[k] == pre[k]);
                    }
                }
                i = i + 1;
                proof {
                    assert(cmds_view(cmds@) =~= before + orig.subrange(0, i as int).map_values(
                        |c: CommandlineView| replace_last(c, values.deep_view()[j as int]),
                    ));
                }
            }
            j = j + 1;
            proof {
                let vs = values.deep_view().subrange(0, j as int);
                assert(vs.drop_last() =~= values.deep_view().subrange(0, j - 1));
                assert(orig.subrange(0, l as int) =~= orig);
            }
        }
        assert(values.deep_view().subrange(0, values.len() as int) =~= values.deep_view());
    }
}

} // verus!
