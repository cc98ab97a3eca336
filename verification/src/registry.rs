use vstd::prelude::*;
use crate::hotkey::Hotkey;

verus! {

/// Whether a process whose bound combinations are `bound` may claim `h`:
/// the OS accepts a registration only for a combination not already claimed.
pub open spec fn register_accepted(bound: Set<Hotkey>, h: Hotkey) -> bool {
    !bound.contains(h)
}

/// The bound combinations after a registration attempt of `h`: `h` is added
/// when the attempt is accepted, and nothing changes when it is refused.
pub open spec fn register_result(bound: Set<Hotkey>, h: Hotkey) -> Set<Hotkey> {
    bound.insert(h)
}

/// The key combinations this process has claimed with the OS. Mirrors the
/// OS global-shortcut facility's process-wide state: each combination can be
/// claimed at most once.
pub struct HotkeyRegistry {
    bound: Vec<Hotkey>,
}

impl View for HotkeyRegistry {
    type V = Set<Hotkey>;

    closed spec fn view(&self) -> Set<Hotkey> {
        self.bound@.to_set()
    }
}

impl HotkeyRegistry {
    /// A fresh process context: nothing is bound yet.
    pub fn new() -> (r: Self)
        ensures
            r@ == Set::<Hotkey>::empty(),
    {
        let r = HotkeyRegistry { bound: Vec::new() };
        proof {
            assert(r@ =~= Set::<Hotkey>::empty());
        }
        r
    }

    /// Whether `h` is currently bound.
    pub fn is_bound(&self, h: Hotkey) -> (r: bool)
        ensures
            r == self@.contains(h),
    {
        let mut i: usize = 0;
        while i < self.bound.len()
            invariant
                i <= self.bound@.len(),
                forall|j: int| 0 <= j < i ==> self.bound@[j] != h,
            decreases self.bound@.len() - i,
        {
            if self.bound[i] == h {
                proof {
                    assert(self.bound@.contains(h));
                }
                return true;
            }
            i = i + 1;
        }
        proof {
            assert(!self.bound@.contains(h));
        }
        false
    }

    /// Claims `h` for this process. Fails deterministically, with a
    /// descriptive error, when `h` is already bound; binds `h` and touches
    /// nothing else when it is not.
    pub fn register(&mut self, h: Hotkey) -> (r: Result<(), String>)
        ensures
            r is Ok <==> register_accepted(old(self)@, h),
            r is Ok ==> final(self)@ == register_result(old(self)@, h),
            r is Err ==> final(self)@ == old(self)@,
            r matches Err(msg) ==> msg@ == "shortcut already registered"@,
    {
        if self.is_bound(h) {
            Err("shortcut already registered".to_owned())
        } else {
            self.bound.push(h);
            proof {
                broadcast use vstd::seq_lib::lemma_seq_contains_after_push;

                assert(self@ =~= old(self)@.insert(h));
            }
            Ok(())
        }
    }
}

/// Law: a combination is claimed at most once per process context. Whatever
/// a process already holds, once a registration of `h` has been accepted, a
/// second registration of `h` in the resulting context is refused.
pub proof fn lemma_second_registration_refused(bound: Set<Hotkey>, h: Hotkey)
    requires
        register_accepted(bound, h),
    ensures
        !register_accepted(register_result(bound, h), h),
{
}

} // verus!
