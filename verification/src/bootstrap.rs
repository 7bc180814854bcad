//! A model of the startup sequence: the fixed plugin attachment order, and
//! the setup callback that attaches three more plugins on mobile targets
//! only, stopping at the first failure.

use vstd::prelude::*;

verus! {

/// A capability plugin that the bootstrap sequence attaches.
#[derive(Clone, Copy, Debug, PartialEq, Eq, Structural)]
pub enum Plugin {
    Opener,
    Store,
    DeepLink,
    Biometric,
    BarcodeScanner,
    CryptoHw,
}

/// The plugins attached unconditionally, before the setup callback runs,
/// in their fixed order.
pub open spec fn base_plugin_order() -> Seq<Plugin> {
    seq![Plugin::Opener, Plugin::Store, Plugin::DeepLink]
}

/// The plugins the setup callback attaches on a mobile target, in their
/// fixed order.
pub open spec fn mobile_plugin_order() -> Seq<Plugin> {
    seq![Plugin::Biometric, Plugin::BarcodeScanner, Plugin::CryptoHw]
}

/// The unconditional attachments, in order.
pub fn base_plugins() -> (v: Vec<Plugin>)
    ensures
        v@ == base_plugin_order(),
{
    let mut v: Vec<Plugin> = Vec::new();
    v.push(Plugin::Opener);
    v.push(Plugin::Store);
    v.push(Plugin::DeepLink);
    proof {
        assert(v@ =~= base_plugin_order());
    }
    v
}

/// The mobile-only attachments, in order.
pub fn mobile_plugins() -> (v: Vec<Plugin>)
    ensures
        v@ == mobile_plugin_order(),
{
    let mut v: Vec<Plugin> = Vec::new();
    v.push(Plugin::Biometric);
    v.push(Plugin::BarcodeScanner);
    v.push(Plugin::CryptoHw);
    proof {
        assert(v@ =~= mobile_plugin_order());
    }
    v
}

/// The setup callback, one attachment at a time. The caller asks which
/// attachment to perform next, performs it, and reports whether it succeeded;
/// on a non-mobile target no attachment is ever pending, and on a mobile
/// target a failure stops the remaining attachments.
pub struct SetupCallback {
    pub mobile: bool,
    pub attached: usize,
    pub failed: bool,
}

impl SetupCallback {
    /// States the callback can actually reach: at most three mobile
    /// attachments, none of them on a non-mobile target, and a recorded
    /// failure always points at a pending attachment.
    pub open spec fn wf(self) -> bool {
        &&& self.attached <= mobile_plugin_order().len()
        &&& !self.mobile ==> self.attached == 0 && !self.failed
        &&& self.failed ==> self.attached < mobile_plugin_order().len()
    }

    /// The attachment the callback performs next, if any is still pending.
    pub open spec fn spec_next(self) -> Option<Plugin> {
        if self.mobile && !self.failed && self.attached < mobile_plugin_order().len() {
            Some(mobile_plugin_order()[self.attached as int])
        } else {
            None
        }
    }

    /// What the callback yields once nothing is pending: the first failed
    /// attachment, or success.
    pub open spec fn spec_outcome(self) -> Result<(), Plugin> {
        if self.failed {
            Err(mobile_plugin_order()[self.attached as int])
        } else {
            Ok(())
        }
    }

    /// A callback about to run on the given target.
    pub fn new(mobile: bool) -> (s: Self)
        ensures
            s.wf(),
            s.mobile == mobile,
            s.attached == 0,
            !s.failed,
    {
        SetupCallback { mobile, attached: 0, failed: false }
    }

    /// The next attachment to perform, or `None` when the callback is done.
    pub fn next_attachment(&self) -> (r: Option<Plugin>)
        ensures
            r == self.spec_next(),
    {
        if self.mobile && !self.failed && self.attached < 3 {
            let p = if self.attached == 0 {
                Plugin::Biometric
            } else if self.attached == 1 {
                Plugin::BarcodeScanner
            } else {
                Plugin::CryptoHw
            };
            Some(p)
        } else {
            None
        }
    }

    /// Records whether the pending attachment succeeded. A failure leaves the
    /// count where it was, so the failed plugin stays identified and no
    /// further attachment becomes pending.
    pub fn record(&mut self, ok: bool)
        requires
            old(self).wf(),
            old(self).spec_next() is Some,
        ensures
            final(self).wf(),
            final(self).mobile == old(self).mobile,
            ok ==> final(self).attached == old(self).attached + 1 && !final(self).failed,
            !ok ==> final(self).failed && final(self).attached == old(self).attached,
    {
        if ok {
            self.attached = self.attached + 1;
        } else {
            self.failed = true;
        }
    }

    /// Whether the callback has finished, by success or by a failure.
    pub fn finished(&self) -> (r: bool)
        ensures
            r == (self.spec_next() is None),
    {
        !(self.mobile && !self.failed && self.attached < 3)
    }

    /// The callback's result, once nothing is pending.
    pub fn outcome(&self) -> (r: Result<(), Plugin>)
        requires
            self.wf(),
            self.spec_next() is None,
        ensures
            r == self.spec_outcome(),
    {
        if self.failed {
            let p = if self.attached == 0 {
                Plugin::Biometric
            } else if self.attached == 1 {
                Plugin::BarcodeScanner
            } else {
                Plugin::CryptoHw
            };
            Err(p)
        } else {
            Ok(())
        }
    }
}

/// The result the setup callback yields when the i-th mobile attachment
/// succeeds exactly when `outcomes[i]`: success off mobile, otherwise the
/// first failure, if any.
pub open spec fn setup_result(mobile: bool, outcomes: Seq<bool>) -> Result<(), Plugin> {
    if !mobile {
        Ok(())
    } else if !outcomes[0] {
        Err(Plugin::Biometric)
    } else if !outcomes[1] {
        Err(Plugin::BarcodeScanner)
    } else if !outcomes[2] {
        Err(Plugin::CryptoHw)
    } else {
        Ok(())
    }
}

/// The attachments the setup callback attempts, in order, when the i-th
/// mobile attachment succeeds exactly when `outcomes[i]`.
pub open spec fn attempted_attachments(mobile: bool, outcomes: Seq<bool>) -> Seq<Plugin> {
    if !mobile {
        Seq::empty()
    } else if !outcomes[0] {
        seq![Plugin::Biometric]
    } else if !outcomes[1] {
        seq![Plugin::Biometric, Plugin::BarcodeScanner]
    } else {
        seq![Plugin::Biometric, Plugin::BarcodeScanner, Plugin::CryptoHw]
    }
}

/// Runs the setup callback to completion, with `outcomes[i]` standing for
/// whether the i-th mobile attachment succeeds. Returns the attachments
/// attempted, in order, and the callback's result.
pub fn run_setup(mobile: bool, outcomes: &Vec<bool>) -> (r: (Vec<Plugin>, Result<(), Plugin>))
    requires
        mobile ==> outcomes@.len() == mobile_plugin_order().len(),
    ensures
        r.0@ == attempted_attachments(mobile, outcomes@),
        r.1 == setup_result(mobile, outcomes@),
{
    let mut cb = SetupCallback::new(mobile);
    let mut attempted: Vec<Plugin> = Vec::new();
    loop
        invariant
            cb.wf(),
            cb.mobile == mobile,
            mobile ==> outcomes@.len() == mobile_plugin_order().len(),
            !cb.failed ==> forall|j: int| 0 <= j < cb.attached ==> outcomes@[j],
            cb.failed ==> !outcomes@[cb.attached as int] && (forall|j: int|
                0 <= j < cb.attached ==> outcomes@[j]),
            mobile ==> attempted@ =~= mobile_plugin_order().subrange(
                0,
                cb.attached + (if cb.failed { 1int } else { 0int }),
            ),
            !mobile ==> attempted@ =~= Seq::<Plugin>::empty(),
        decreases 3 - cb.attached + (if cb.failed { 0int } else { 1int }),
    {
        match cb.next_attachment() {
            None => {
                let res = cb.outcome();
                proof {
                    assert(attempted@ =~= attempted_attachments(mobile, outcomes@));
                }
                return (attempted, res);
            },
            Some(p) => {
                attempted.push(p);
                let ok = outcomes[cb.attached];
                proof {
                    assert(attempted@ =~= mobile_plugin_order().subrange(
                        0,
                        cb.attached + 1,
                    ));
                }
                cb.record(ok);
            },
        }
    }
}

/// One whole bootstrap run, as far as plugin attachment goes: the three
/// unconditional plugins in their fixed order, then whatever the setup
/// callback attempts, and the callback's result.
pub fn bootstrap_attachments(mobile: bool, outcomes: &Vec<bool>) -> (r: (
    Vec<Plugin>,
    Result<(), Plugin>,
))
    requires
        mobile ==> outcomes@.len() == mobile_plugin_order().len(),
    ensures
        r.0@ == base_plugin_order() + attempted_attachments(mobile, outcomes@),
        r.1 == setup_result(mobile, outcomes@),
{
    let mut all = base_plugins();
    let (mut attempted, res) = run_setup(mobile, outcomes);
    all.append(&mut attempted);
    (all, res)
}

/// On a non-mobile target the setup callback completes without error,
/// whatever the attachment outcomes would have been, and attempts no
/// attachment at all.
pub proof fn lemma_desktop_setup_always_ok(outcomes: Seq<bool>)
    ensures
        setup_result(false, outcomes) == Ok::<(), Plugin>(()),
        attempted_attachments(false, outcomes) =~= Seq::<Plugin>::empty(),
{
}

/// A failed attachment short-circuits the rest of the mobile setup: when the
/// attachments before position `i` succeed and the one at `i` fails, the
/// callback yields exactly that failure, and only the plugins up to and
/// including position `i` are ever attempted.
pub proof fn lemma_mobile_short_circuit(outcomes: Seq<bool>, i: int)
    requires
        outcomes.len() == mobile_plugin_order().len(),
        0 <= i < mobile_plugin_order().len(),
        !outcomes[i],
        forall|j: int| 0 <= j < i ==> outcomes[j],
    ensures
        setup_result(true, outcomes) == Err::<(), Plugin>(mobile_plugin_order()[i]),
        attempted_attachments(true, outcomes) =~= mobile_plugin_order().subrange(0, i + 1),
{
}

/// When the first mobile attachment (biometric) fails, the barcode-scanner
/// and hardware-crypto attachments are never attempted.
pub proof fn lemma_mobile_first_failure_short_circuits(outcomes: Seq<bool>)
    requires
        outcomes.len() == mobile_plugin_order().len(),
        !outcomes[0],
    ensures
        setup_result(true, outcomes) == Err::<(), Plugin>(Plugin::Biometric),
        attempted_attachments(true, outcomes) =~= seq![Plugin::Biometric],
        !attempted_attachments(true, outcomes).contains(Plugin::BarcodeScanner),
        !attempted_attachments(true, outcomes).contains(Plugin::CryptoHw),
{
    assert forall|k: int| 0 <= k < attempted_attachments(true, outcomes).len() implies
        attempted_attachments(true, outcomes)[k] == Plugin::Biometric by {
    }
}

} // verus!
