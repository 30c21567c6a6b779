//! Client-side listing logic: the active-machine filter, the
//! fly-apps split that sets the release-command machine apart, the
//! lease-lookup interpretation and the all-or-nothing fan-out join.

use vstd::prelude::*;

use crate::error::FlapsError;
use crate::machine::{
    spec_is_active, spec_is_fly_apps_console, spec_is_release_command_machine, Machine,
};
use crate::strutil::str_eq;
use crate::types::{FlyAppsMachines, MachineLease};

verus! {

/// Whether `list_active` keeps a machine: neither a release-command
/// runner nor a platform console, and not destroyed or being destroyed.
pub open spec fn spec_keep_active(m: Machine) -> bool {
    !spec_is_release_command_machine(m) && !spec_is_fly_apps_console(m) && spec_is_active(m)
}

/// Whether the fly-apps listing keeps a machine among the plain ones:
/// neither a release-command runner nor a platform console.
pub open spec fn spec_keep_fly_apps(m: Machine) -> bool {
    !spec_is_release_command_machine(m) && !spec_is_fly_apps_console(m)
}

fn keep_active(m: &Machine) -> (r: bool)
    ensures
        r == spec_keep_active(*m),
{
    !m.is_release_command_machine() && !m.is_fly_apps_console() && m.is_active()
}

/// The machines `list_active` returns: only those that are neither
/// release-command runners nor platform consoles and are not destroyed
/// or being destroyed, in their listed order.
pub fn list_active_filter(machines: Vec<Machine>) -> (r: Vec<Machine>)
    ensures
        r@ == machines@.filter(|m: Machine| spec_keep_active(m)),
{
    let ghost all = machines@;
    let ghost pred = |m: Machine| spec_keep_active(m);
    let mut rest = machines;
    let mut out: Vec<Machine> = Vec::new();
    let ghost i: int = 0;
    proof {
        assert(all.take(0).filter(pred) =~= Seq::<Machine>::empty());
    }
    while rest.len() > 0
        invariant
            all == machines@,
            0 <= i <= all.len(),
            rest@ =~= all.skip(i),
            out@ == all.take(i).filter(pred),
            pred == (|m: Machine| spec_keep_active(m)),
        decreases rest@.len(),
    {
        let m = rest.remove(0);
        proof {
            assert(all.skip(i)[0] == all[i]);
            assert(all.take(i + 1) =~= all.take(i) + seq![all[i]]);
            Seq::<Machine>::filter_distributes_over_add(all.take(i), seq![all[i]], pred);
            reveal_with_fuel(Seq::<Machine>::filter, 2);
            assert(seq![all[i]].drop_last() =~= Seq::<Machine>::empty());
            assert(seq![all[i]].filter(pred) =~= (if pred(all[i]) {
                seq![all[i]]
            } else {
                Seq::<Machine>::empty()
            }));
            assert(rest@ =~= all.skip(i + 1));
        }
        if keep_active(&m) {
            out.push(m);
            proof {
                assert(out@ =~= all.take(i + 1).filter(pred));
            }
        } else {
            proof {
                assert(out@ =~= all.take(i + 1).filter(pred));
            }
        }
        proof {
            i = i + 1;
        }
    }
    proof {
        assert(all.take(all.len() as int) =~= all);
    }
    out
}

/// The first release-command machine of a listing, if any.
pub open spec fn spec_first_release_cmd(machines: Seq<Machine>) -> Option<Machine>
    decreases machines.len(),
{
    if machines.len() == 0 {
        None
    } else if spec_is_release_command_machine(machines[0]) {
        Some(machines[0])
    } else {
        spec_first_release_cmd(machines.skip(1))
    }
}

/// Appending a machine changes the first release-command machine only
/// when none was found before.
proof fn lemma_first_release_cmd_push(machines: Seq<Machine>, m: Machine)
    ensures
        spec_first_release_cmd(machines.push(m)) == (if spec_first_release_cmd(machines) is Some {
            spec_first_release_cmd(machines)
        } else if spec_is_release_command_machine(m) {
            Some(m)
        } else {
            None
        }),
    decreases machines.len(),
{
    if machines.len() == 0 {
        assert(machines.push(m)[0] == m);
        assert(machines.push(m).skip(1) =~= Seq::<Machine>::empty());
        assert(spec_first_release_cmd(Seq::<Machine>::empty()) is None);
        assert(machines.push(m).len() == 1);
    } else {
        assert(machines.push(m)[0] == machines[0]);
        assert(machines.push(m).skip(1) =~= machines.skip(1).push(m));
        lemma_first_release_cmd_push(machines.skip(1), m);
    }
}

/// Splits a listing for the fly-apps platform: the first
/// release-command machine (if any) is set apart, and the rest keeps,
/// in order, every machine that is neither a release-command runner nor
/// a platform console.
pub fn split_fly_apps_machines(machines: Vec<Machine>) -> (r: FlyAppsMachines)
    ensures
        r.machines@ == machines@.filter(|m: Machine| spec_keep_fly_apps(m)),
        r.release_cmd_machine == spec_first_release_cmd(machines@),
{
    let ghost all = machines@;
    let ghost pred = |m: Machine| spec_keep_fly_apps(m);
    let mut rest = machines;
    let mut out: Vec<Machine> = Vec::new();
    let mut release_cmd: Option<Machine> = None;
    let ghost i: int = 0;
    proof {
        assert(all.take(0).filter(pred) =~= Seq::<Machine>::empty());
        assert(spec_first_release_cmd(all.take(0)) is None);
    }
    while rest.len() > 0
        invariant
            all == machines@,
            0 <= i <= all.len(),
            rest@ =~= all.skip(i),
            out@ == all.take(i).filter(pred),
            release_cmd == spec_first_release_cmd(all.take(i)),
            pred == (|m: Machine| spec_keep_fly_apps(m)),
        decreases rest@.len(),
    {
        let m = rest.remove(0);
        proof {
            assert(all.skip(i)[0] == all[i]);
            assert(all.take(i + 1) =~= all.take(i).push(all[i]));
            assert(all.take(i + 1) =~= all.take(i) + seq![all[i]]);
            Seq::<Machine>::filter_distributes_over_add(all.take(i), seq![all[i]], pred);
            reveal_with_fuel(Seq::<Machine>::filter, 2);
            assert(seq![all[i]].drop_last() =~= Seq::<Machine>::empty());
            assert(seq![all[i]].filter(pred) =~= (if pred(all[i]) {
                seq![all[i]]
            } else {
                Seq::<Machine>::empty()
            }));
            lemma_first_release_cmd_push(all.take(i), all[i]);
            assert(rest@ =~= all.skip(i + 1));
        }
        if m.is_release_command_machine() {
            if release_cmd.is_none() {
                release_cmd = Some(m);
            }
        } else if !m.is_fly_apps_console() {
            out.push(m);
        }
        proof {
            assert(out@ =~= all.take(i + 1).filter(pred));
            i = i + 1;
        }
    }
    proof {
        assert(all.take(all.len() as int) =~= all);
    }
    FlyAppsMachines { machines: out, release_cmd_machine: release_cmd }
}

/// Whether an error is the "no lease held" sentinel: a not-found whose
/// message is exactly `lease not found`.
pub open spec fn spec_is_lease_not_found(e: FlapsError) -> bool {
    e matches FlapsError::NotFound(raw) && (raw.message matches Some(m) && m@
        == "lease not found"@)
}

/// Reads a lease-lookup result: success wraps the lease; the not-found
/// sentinel whose message is exactly `lease not found` is the valid
/// "no lease held" outcome; any other error (a not-found with any other
/// message among them) propagates unchanged.
pub fn interpret_find_lease(res: Result<MachineLease, FlapsError>) -> (r: Result<
    Option<MachineLease>,
    FlapsError,
>)
    ensures
        match res {
            Ok(lease) => r matches Ok(Some(l)) && l == lease,
            Err(e) => if spec_is_lease_not_found(e) {
                r matches Ok(l) && l is None
            } else {
                r matches Err(e2) && e2 == e
            },
        },
{
    proof {
        reveal_strlit("lease not found");
    }
    match res {
        Ok(lease) => Ok(Some(lease)),
        Err(FlapsError::NotFound(raw)) => {
            let sentinel = match &raw.message {
                Some(m) => str_eq(m.as_str(), "lease not found"),
                None => false,
            };
            if sentinel {
                Ok(None)
            } else {
                Err(FlapsError::NotFound(raw))
            }
        },
        Err(e) => Err(e),
    }
}

/// Joins the fan-out's per-machine fetches, all or nothing: every fetch
/// succeeding yields the machines in request order; otherwise the first
/// failed fetch's error surfaces alone, never a partial list.
pub fn join_machine_results(results: Vec<Result<Machine, FlapsError>>) -> (r: Result<
    Vec<Machine>,
    FlapsError,
>)
    ensures
        (forall|i: int| 0 <= i < results@.len() ==> #[trigger] results@[i] is Ok) ==> (r matches Ok(
            ms,
        ) && ms@.len() == results@.len() && forall|i: int|
            0 <= i < results@.len() ==> #[trigger] ms@[i] == results@[i]->Ok_0),
        (r matches Err(_)) ==> exists|i: int|
            0 <= i < results@.len() && (#[trigger] results@[i] matches Err(e2) && e2 == r->Err_0)
                && (forall|j: int| 0 <= j < i ==> #[trigger] results@[j] is Ok),
        (exists|i: int| 0 <= i < results@.len() && !(#[trigger] results@[i] is Ok)) ==> r is Err,
{
    let ghost all = results@;
    let mut rest = results;
    let mut out: Vec<Machine> = Vec::new();
    let ghost i: int = 0;
    while rest.len() > 0
        invariant
            all == results@,
            0 <= i <= all.len(),
            rest@ =~= all.skip(i),
            out@.len() == i,
            forall|j: int| 0 <= j < i ==> #[trigger] all[j] is Ok,
            forall|j: int| 0 <= j < i ==> #[trigger] out@[j] == all[j]->Ok_0,
        decreases rest@.len(),
    {
        let res = rest.remove(0);
        proof {
            assert(all.skip(i)[0] == all[i]);
            assert(rest@ =~= all.skip(i + 1));
        }
        match res {
            Ok(m) => {
                out.push(m);
                proof {
                    i = i + 1;
                }
            },
            Err(e) => {
                return Err(e);
            },
        }
    }
    Ok(out)
}

} // verus!
