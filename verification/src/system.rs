use vstd::prelude::*;

verus! {

/// Asks `num_cpus::get` how many CPUs this process may use. Its documentation
/// promises a result of at least one; which number comes back depends on the
/// machine and is not stated.
#[verifier::external_body]
pub(crate) fn cpu_count() -> (n: usize)
    ensures
        n >= 1,
{
    num_cpus::get()
}

} // verus!

verus! {

/// Twice `cpus`, wrapped to a machine word.
pub open spec fn doubled_word(cpus: usize) -> int {
    (2 * cpus) % (usize::MAX as int + 1)
}

/// Worker threads for an I/O runtime on a machine with `cpus` CPUs: two per
/// CPU, wrapping around as a machine word does.
pub fn runtime_worker_threads(cpus: usize) -> (n: usize)
    ensures
        n == doubled_word(cpus),
{
    cpus.wrapping_mul(2)
}

/// Worker threads for an I/O runtime on this machine: two per CPU.
pub fn default_runtime_worker_threads() -> (n: usize)
    ensures
        exists|cpus: usize| cpus >= 1 && n == #[trigger] doubled_word(cpus),
{
    let cpus = cpu_count();
    runtime_worker_threads(cpus)
}

} // verus!

verus! {

/// Two threads per CPU: while twice the count fits in a machine word, the
/// runtime gets exactly twice as many workers as there are CPUs, and one more
/// CPU always adds two workers.
pub proof fn law_two_workers_per_cpu(cpus: usize)
    requires
        2 * cpus <= usize::MAX,
    ensures
        doubled_word(cpus) == 2 * cpus,
        cpus >= 1 ==> doubled_word(cpus) >= 2,
        cpus >= 1 ==> doubled_word(cpus) == doubled_word((cpus - 1) as usize) + 2,
{
    assert((2 * cpus) % (usize::MAX as int + 1) == 2 * cpus) by (nonlinear_arith)
        requires
            0 <= 2 * cpus <= usize::MAX,
    ;
    if cpus >= 1 {
        let c1 = (cpus - 1) as usize;
        assert((2 * c1) % (usize::MAX as int + 1) == 2 * c1) by (nonlinear_arith)
            requires
                0 <= 2 * c1 <= usize::MAX,
        ;
    }
}

} // verus!
