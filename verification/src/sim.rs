//! A simulated device and operating system against which the full session
//! state machine runs verified: driver arbitration, claim/configure, the
//! interrupt transfers, byte-count validation, and the symmetric release on
//! every exit path. The simulated device records every call it receives in a
//! log, so the contracts can state exactly which calls an operation makes.

use vstd::prelude::*;

use crate::codec::{
    decode, encode, leds_of_mask, led_mask, validate_write_length, LEDState,
    INTENSITY_BYTE_INDEX, LED_BYTE_INDEX, MAX_INTENSITY, WARTHOG_PACKET_DATA_LENGTH,
};
use crate::endpoints::{first_readable, first_writable, spec_first_readable, spec_first_writable,
    EndpointInfo};
use crate::errors::UsbError;
use crate::session::WriteOutcome;

verus! {

/// Number of interface slots the simulated device tracks: one per possible
/// interface number of a `u8`.
pub const IFACE_SLOTS: usize = 256;

/// One call the session made against the simulated device or its host
/// operating system, in the order the calls were made.
#[derive(Clone, Copy, PartialEq, Eq, Structural, Debug)]
pub enum SimAction {
    /// The session asked whether a kernel driver is bound to the interface.
    QueryDriver(u8),
    /// The session attempted to detach the kernel driver from the interface.
    DetachDriver(u8),
    /// The session attempted to reattach the kernel driver to the interface.
    AttachDriver(u8),
    /// The session attempted to set the active configuration.
    SetConfiguration(u8),
    /// The session attempted to claim the interface.
    ClaimInterface(u8),
    /// The session attempted to release the interface.
    ReleaseInterface(u8),
    /// The session issued an interrupt-in transfer against the endpoint.
    ReadTransfer(u8),
    /// The session issued an interrupt-out transfer against the endpoint.
    WriteTransfer(u8),
}

/// A simulated device together with the pieces of operating-system state the
/// session touches. The `*_fails` fields choose whether the corresponding
/// call succeeds; `read_data` and `write_reply` choose what the two transfer
/// calls return (`None` makes the transfer fail).
pub struct SimDevice {
    /// The device's descriptor tree, flattened to one entry per endpoint.
    pub endpoints: Vec<EndpointInfo>,
    /// Whether a kernel driver is currently bound, per interface number.
    pub driver_active: Vec<bool>,
    /// Whether this session currently holds a claim, per interface number.
    pub claimed: Vec<bool>,
    /// Whether a detach attempt fails.
    pub detach_fails: bool,
    /// Whether setting the active configuration fails.
    pub set_config_fails: bool,
    /// Whether claiming the interface fails.
    pub claim_fails: bool,
    /// What an interrupt-in transfer returns; `None` makes it fail.
    pub read_data: Option<Vec<u8>>,
    /// The byte count an interrupt-out transfer reports; `None` makes it fail.
    pub write_reply: Option<usize>,
    /// Whether releasing a claimed interface fails.
    pub release_fails: bool,
    /// Whether reattaching a kernel driver fails.
    pub attach_fails: bool,
    /// The last payload an interrupt-out transfer accepted, if any.
    pub last_written: Option<Vec<u8>>,
    /// Every call received so far, oldest first.
    pub log: Vec<SimAction>,
}

/// The simulated device tracks one slot per possible interface number.
pub open spec fn wf_sim(d: SimDevice) -> bool {
    d.driver_active@.len() == IFACE_SLOTS && d.claimed@.len() == IFACE_SLOTS
}

/// The two devices answer every call the same way: the descriptor tree and
/// every behaviour choice agree.
pub open spec fn same_behavior(a: SimDevice, b: SimDevice) -> bool {
    a.endpoints@ == b.endpoints@ && a.detach_fails == b.detach_fails && a.set_config_fails
        == b.set_config_fails && a.claim_fails == b.claim_fails && a.read_data == b.read_data
        && a.write_reply == b.write_reply && a.release_fails == b.release_fails && a.attach_fails
        == b.attach_fails
}

/// The calls driver arbitration makes on an interface: the query, then the
/// detach attempt exactly when a driver was bound.
pub open spec fn detach_seq(d: SimDevice, iface: u8) -> Seq<SimAction> {
    if d.driver_active@[iface as int] {
        seq![SimAction::QueryDriver(iface), SimAction::DetachDriver(iface)]
    } else {
        seq![SimAction::QueryDriver(iface)]
    }
}

/// The calls configuring makes: setting the active configuration, then the
/// claim attempt if setting succeeded.
pub open spec fn configure_seq(d: SimDevice, endpoint: EndpointInfo) -> Seq<SimAction> {
    if d.set_config_fails {
        seq![SimAction::SetConfiguration(endpoint.config)]
    } else {
        seq![
            SimAction::SetConfiguration(endpoint.config),
            SimAction::ClaimInterface(endpoint.iface),
        ]
    }
}

/// The calls releasing makes: the release attempt, then — only if the release
/// succeeded and this session had detached a kernel driver — the reattach
/// attempt. A driver this session did not detach is never reattached.
pub open spec fn release_seq(d: SimDevice, iface: u8, had_kernel_driver: bool) -> Seq<SimAction> {
    if d.release_fails {
        seq![SimAction::ReleaseInterface(iface)]
    } else if had_kernel_driver {
        seq![SimAction::ReleaseInterface(iface), SimAction::AttachDriver(iface)]
    } else {
        seq![SimAction::ReleaseInterface(iface)]
    }
}

/// Arbitration succeeds on the interface: either no driver is bound, or the
/// detach attempt goes through.
pub open spec fn detach_ok(d: SimDevice, iface: u8) -> bool {
    d.driver_active@[iface as int] ==> !d.detach_fails
}

/// Both configuration steps succeed.
pub open spec fn configure_ok(d: SimDevice) -> bool {
    !d.set_config_fails && !d.claim_fails
}

/// The read transfer fails outright or returns a packet of the wrong length.
pub open spec fn read_failed(d: SimDevice) -> bool {
    match d.read_data {
        None => true,
        Some(v) => v@.len() != WARTHOG_PACKET_DATA_LENGTH,
    }
}

/// The terminal release and, where one is owed, the reattach both succeed.
pub open spec fn release_ok(d: SimDevice, had_kernel_driver: bool) -> bool {
    !d.release_fails && (had_kernel_driver ==> !d.attach_fails)
}

/// The action occurs at exactly one position of the sequence.
pub open spec fn occurs_exactly_once(s: Seq<SimAction>, x: SimAction) -> bool {
    exists|k: int|
        0 <= k < s.len() && s[k] == x && (forall|j: int|
            0 <= j < s.len() && s[j] == x ==> j == k)
}

impl SimDevice {
    /// A fresh simulated device presenting the given endpoints: no kernel
    /// driver bound anywhere, nothing claimed, every call set to succeed,
    /// both transfers set to fail until the test chooses their replies.
    pub fn new(endpoints: Vec<EndpointInfo>) -> (r: SimDevice)
        ensures
            wf_sim(r),
            r.endpoints@ == endpoints@,
            r.log@ == Seq::<SimAction>::empty(),
            forall|k: int| 0 <= k < IFACE_SLOTS ==> !r.driver_active@[k],
            forall|k: int| 0 <= k < IFACE_SLOTS ==> !r.claimed@[k],
            !r.detach_fails && !r.set_config_fails && !r.claim_fails && !r.release_fails
                && !r.attach_fails,
            r.read_data is None && r.write_reply is None && r.last_written is None,
    {
        SimDevice {
            endpoints,
            driver_active: vec![false; IFACE_SLOTS],
            claimed: vec![false; IFACE_SLOTS],
            detach_fails: false,
            set_config_fails: false,
            claim_fails: false,
            read_data: None,
            write_reply: None,
            release_fails: false,
            attach_fails: false,
            last_written: None,
            log: Vec::new(),
        }
    }

    /// Bind a kernel driver to the interface, as the operating system would
    /// have before the session started.
    pub fn bind_kernel_driver(&mut self, iface: u8)
        requires
            wf_sim(*old(self)),
        ensures
            wf_sim(*final(self)),
            same_behavior(*old(self), *final(self)),
            final(self).log@ == old(self).log@,
            final(self).claimed@ == old(self).claimed@,
            final(self).last_written == old(self).last_written,
            final(self).driver_active@ == old(self).driver_active@.update(iface as int, true),
    {
        self.driver_active[iface as usize] = true;
    }

    /// Detect and, where one is bound, detach a competing kernel driver on
    /// the interface; report whether this session performed a detach, so that
    /// it alone is responsible for reattaching the driver.
    pub fn ensure_detached(&mut self, iface: u8) -> (r: Result<bool, UsbError>)
        requires
            wf_sim(*old(self)),
        ensures
            wf_sim(*final(self)),
            same_behavior(*old(self), *final(self)),
            final(self).claimed@ == old(self).claimed@,
            final(self).last_written == old(self).last_written,
            final(self).log@ == old(self).log@ + detach_seq(*old(self), iface),
            !old(self).driver_active@[iface as int] ==> r == Ok::<bool, UsbError>(false)
                && final(self).driver_active@ == old(self).driver_active@,
            old(self).driver_active@[iface as int] && old(self).detach_fails ==> r == Err::<
                bool,
                UsbError,
            >(UsbError::DriverDetach { iface }) && final(self).driver_active@ == old(self).driver_active@,
            old(self).driver_active@[iface as int] && !old(self).detach_fails ==> r == Ok::<
                bool,
                UsbError,
            >(true) && final(self).driver_active@ == old(self).driver_active@.update(
                iface as int,
                false,
            ),
    {
        self.log.push(SimAction::QueryDriver(iface));
        if self.driver_active[iface as usize] {
            self.log.push(SimAction::DetachDriver(iface));
            proof {
                assert(self.log@ =~= old(self).log@ + detach_seq(*old(self), iface));
            }
            if self.detach_fails {
                Err(UsbError::DriverDetach { iface })
            } else {
                self.driver_active[iface as usize] = false;
                Ok(true)
            }
        } else {
            proof {
                assert(self.log@ =~= old(self).log@ + detach_seq(*old(self), iface));
            }
            Ok(false)
        }
    }

    /// Set the device's active configuration and claim the interface owning
    /// the endpoint; either step failing is a claim error, and no rollback of
    /// a partially set configuration is attempted.
    pub fn configure(&mut self, endpoint: &EndpointInfo) -> (r: Result<(), UsbError>)
        requires
            wf_sim(*old(self)),
        ensures
            wf_sim(*final(self)),
            same_behavior(*old(self), *final(self)),
            final(self).driver_active@ == old(self).driver_active@,
            final(self).last_written == old(self).last_written,
            final(self).log@ == old(self).log@ + configure_seq(*old(self), *endpoint),
            old(self).set_config_fails || old(self).claim_fails ==> r == Err::<(), UsbError>(
                UsbError::Claim { iface: endpoint.iface },
            ) && final(self).claimed@ == old(self).claimed@,
            configure_ok(*old(self)) ==> r == Ok::<(), UsbError>(()) && final(self).claimed@ == old(self).claimed@.update(endpoint.iface as int, true),
    {
        self.log.push(SimAction::SetConfiguration(endpoint.config));
        if self.set_config_fails {
            proof {
                assert(self.log@ =~= old(self).log@ + configure_seq(*old(self), *endpoint));
            }
            return Err(UsbError::Claim { iface: endpoint.iface });
        }
        self.log.push(SimAction::ClaimInterface(endpoint.iface));
        proof {
            assert(self.log@ =~= old(self).log@ + configure_seq(*old(self), *endpoint));
        }
        if self.claim_fails {
            return Err(UsbError::Claim { iface: endpoint.iface });
        }
        self.claimed[endpoint.iface as usize] = true;
        Ok(())
    }

    /// Release the claimed interface, then reattach the kernel driver exactly
    /// when `had_kernel_driver` says this session detached one. This is the
    /// single place reattachment is decided.
    pub fn release(&mut self, iface: u8, had_kernel_driver: bool) -> (r: Result<(), UsbError>)
        requires
            wf_sim(*old(self)),
        ensures
            wf_sim(*final(self)),
            same_behavior(*old(self), *final(self)),
            final(self).last_written == old(self).last_written,
            final(self).log@ == old(self).log@ + release_seq(
                *old(self),
                iface,
                had_kernel_driver,
            ),
            old(self).release_fails ==> r == Err::<(), UsbError>(UsbError::Release { iface })
                && final(self).claimed@ == old(self).claimed@ && final(self).driver_active@ == old(self).driver_active@,
            !old(self).release_fails ==> final(self).claimed@ == old(self).claimed@.update(
                iface as int,
                false,
            ),
            !old(self).release_fails && !had_kernel_driver ==> r == Ok::<(), UsbError>(())
                && final(self).driver_active@ == old(self).driver_active@,
            !old(self).release_fails && had_kernel_driver && old(self).attach_fails ==> r == Err::<
                (),
                UsbError,
            >(UsbError::Release { iface }) && final(self).driver_active@ == old(self).driver_active@,
            !old(self).release_fails && had_kernel_driver && !old(self).attach_fails ==> r == Ok::<
                (),
                UsbError,
            >(()) && final(self).driver_active@ == old(self).driver_active@.update(
                iface as int,
                true,
            ),
    {
        self.log.push(SimAction::ReleaseInterface(iface));
        if self.release_fails {
            proof {
                assert(self.log@ =~= old(self).log@ + release_seq(
                    *old(self),
                    iface,
                    had_kernel_driver,
                ));
            }
            return Err(UsbError::Release { iface });
        }
        self.claimed[iface as usize] = false;
        if had_kernel_driver {
            self.log.push(SimAction::AttachDriver(iface));
            proof {
                assert(self.log@ =~= old(self).log@ + release_seq(
                    *old(self),
                    iface,
                    had_kernel_driver,
                ));
            }
            if self.attach_fails {
                return Err(UsbError::Release { iface });
            }
            self.driver_active[iface as usize] = true;
            Ok(())
        } else {
            proof {
                assert(self.log@ =~= old(self).log@ + release_seq(
                    *old(self),
                    iface,
                    had_kernel_driver,
                ));
            }
            Ok(())
        }
    }

    /// A blocking interrupt-in transfer against the endpoint: returns exactly
    /// the bytes the device chose to send, or the transfer error.
    pub fn read_transfer(&mut self, endpoint: u8) -> (r: Result<Vec<u8>, UsbError>)
        requires
            wf_sim(*old(self)),
        ensures
            wf_sim(*final(self)),
            same_behavior(*old(self), *final(self)),
            final(self).driver_active@ == old(self).driver_active@,
            final(self).claimed@ == old(self).claimed@,
            final(self).last_written == old(self).last_written,
            final(self).log@ == old(self).log@.push(SimAction::ReadTransfer(endpoint)),
            old(self).read_data matches Some(d) ==> (r matches Ok(v) && v@ == d@),
            old(self).read_data is None ==> r == Err::<Vec<u8>, UsbError>(
                UsbError::Transfer { endpoint },
            ),
    {
        self.log.push(SimAction::ReadTransfer(endpoint));
        match &self.read_data {
            Some(d) => Ok(d.clone()),
            None => Err(UsbError::Transfer { endpoint }),
        }
    }

    /// A blocking interrupt-out transfer against the endpoint: the device
    /// accepts the payload and reports a byte count, or the transfer fails
    /// and nothing is written.
    pub fn write_transfer(&mut self, endpoint: u8, data: &Vec<u8>) -> (r: Result<usize, UsbError>)
        requires
            wf_sim(*old(self)),
        ensures
            wf_sim(*final(self)),
            same_behavior(*old(self), *final(self)),
            final(self).driver_active@ == old(self).driver_active@,
            final(self).claimed@ == old(self).claimed@,
            final(self).log@ == old(self).log@.push(SimAction::WriteTransfer(endpoint)),
            old(self).write_reply matches Some(n) ==> r == Ok::<usize, UsbError>(n)
                && (final(self).last_written matches Some(p) && p@ == data@),
            old(self).write_reply is None ==> r == Err::<usize, UsbError>(
                UsbError::Transfer { endpoint },
            ) && final(self).last_written == old(self).last_written,
    {
        self.log.push(SimAction::WriteTransfer(endpoint));
        match self.write_reply {
            Some(n) => {
                self.last_written = Some(data.clone());
                Ok(n)
            },
            None => Err(UsbError::Transfer { endpoint }),
        }
    }

    /// Run the full read operation against the simulated device: select the
    /// first readable interrupt endpoint, arbitrate the kernel driver,
    /// configure and claim, read and decode the status packet, and release on
    /// every exit path — the release's own error is discarded when a transfer
    /// error is already being reported, and propagates when the release is
    /// the terminal step of an otherwise successful operation.
    pub fn read_configuration(&mut self) -> (r: Result<(LEDState, u8), UsbError>)
        requires
            wf_sim(*old(self)),
        ensures
            wf_sim(*final(self)),
            same_behavior(*old(self), *final(self)),
            final(self).last_written == old(self).last_written,
            // endpoint absence is detected before any driver, claim or
            // transfer call is attempted
            spec_first_readable(old(self).endpoints@) is None ==> r == Err::<
                (LEDState, u8),
                UsbError,
            >(UsbError::EndpointNotFound) && final(self).log@ == old(self).log@ && final(self).driver_active@ == old(self).driver_active@ && final(self).claimed@ == old(self).claimed@,
            // a failing detach aborts before anything is configured or claimed
            ({
                let fr = spec_first_readable(old(self).endpoints@);
                fr is Some ==> {
                    let e = fr->Some_0;
                    !detach_ok(*old(self), e.iface) ==> r == Err::<(LEDState, u8), UsbError>(
                        UsbError::DriverDetach { iface: e.iface },
                    ) && final(self).log@ == old(self).log@ + detach_seq(*old(self), e.iface)
                        && final(self).claimed@ == old(self).claimed@
                }
            }),
            // a failing configure or claim aborts; nothing was claimed, so
            // nothing is released
            ({
                let fr = spec_first_readable(old(self).endpoints@);
                fr is Some ==> {
                    let e = fr->Some_0;
                    detach_ok(*old(self), e.iface) && !configure_ok(*old(self)) ==> r == Err::<
                        (LEDState, u8),
                        UsbError,
                    >(UsbError::Claim { iface: e.iface }) && final(self).log@ == old(self).log@
                        + detach_seq(*old(self), e.iface) + configure_seq(*old(self), e) && final(self).claimed@ == old(self).claimed@
                }
            }),
            // fail fast with best-effort cleanup: when the read transfer
            // fails after a successful claim, the release is still attempted,
            // and the transfer error is what is reported, never the cleanup's
            // own error
            ({
                let fr = spec_first_readable(old(self).endpoints@);
                fr is Some ==> {
                    let e = fr->Some_0;
                    detach_ok(*old(self), e.iface) && configure_ok(*old(self)) && read_failed(
                        *old(self),
                    ) ==> r == Err::<(LEDState, u8), UsbError>(
                        UsbError::Transfer { endpoint: e.address },
                    ) && final(self).log@ == old(self).log@ + read_attempt_tail(*old(self), e)
                }
            }),
            // the read succeeded; the terminal release's error propagates
            ({
                let fr = spec_first_readable(old(self).endpoints@);
                fr is Some ==> {
                    let e = fr->Some_0;
                    let had = old(self).driver_active@[e.iface as int];
                    detach_ok(*old(self), e.iface) && configure_ok(*old(self)) && !read_failed(
                        *old(self),
                    ) ==> final(self).log@ == old(self).log@ + read_attempt_tail(*old(self), e) && (
                    !release_ok(*old(self), had) ==> r == Err::<(LEDState, u8), UsbError>(
                        UsbError::Release { iface: e.iface },
                    )) && (release_ok(*old(self), had) ==> r is Ok && final(self).driver_active@
                        == old(self).driver_active@ && final(self).claimed@ == old(self).claimed@.update(e.iface as int, false))
                }
            }),
            // whatever is returned on success is the decode of the packet the
            // device sent
            r matches Ok(v) ==> (old(self).read_data matches Some(d) && d@.len()
                == WARTHOG_PACKET_DATA_LENGTH && v.0 == leds_of_mask(d@[LED_BYTE_INDEX as int])
                && v.1 == d@[INTENSITY_BYTE_INDEX as int]),
    {
        let ep_opt = first_readable(&self.endpoints);
        let ep = match ep_opt {
            None => {
                return Err(UsbError::EndpointNotFound);
            },
            Some(e) => e,
        };
        let had = match self.ensure_detached(ep.iface) {
            Ok(b) => b,
            Err(e) => {
                return Err(e);
            },
        };
        match self.configure(&ep) {
            Ok(u) => u,
            Err(e) => {
                return Err(e);
            },
        };
        let data = match self.read_transfer(ep.address) {
            Ok(d) => d,
            Err(e) => {
                let _ = self.release(ep.iface, had);
                proof {
                    assert(self.log@ =~= old(self).log@ + read_attempt_tail(*old(self), ep));
                }
                return Err(e);
            },
        };
        if data.len() != WARTHOG_PACKET_DATA_LENGTH {
            let _ = self.release(ep.iface, had);
            proof {
                assert(self.log@ =~= old(self).log@ + read_attempt_tail(*old(self), ep));
            }
            return Err(UsbError::Transfer { endpoint: ep.address });
        }
        let (leds, intensity) = decode(&data);
        let released = self.release(ep.iface, had);
        proof {
            assert(self.log@ =~= old(self).log@ + read_attempt_tail(*old(self), ep));
            if !self.release_fails {
                assert(self.claimed@ =~= old(self).claimed@.update(ep.iface as int, false));
            }
            if had && !self.release_fails && !self.attach_fails {
                assert(self.driver_active@ =~= old(self).driver_active@);
            }
        }
        match released {
            Ok(u) => u,
            Err(e) => {
                return Err(e);
            },
        };
        Ok((leds, intensity))
    }

    /// Run the full write operation against the simulated device. If the
    /// requested target equals the currently read state the operation issues
    /// no call of any kind and reports that there was nothing to update;
    /// otherwise it selects the first writable interrupt endpoint,
    /// arbitrates, configures, encodes and writes the status packet,
    /// validates the transferred byte count, and releases on every exit path.
    #[verifier::rlimit(100)]
    pub fn write_configuration(
        &mut self,
        target_leds: LEDState,
        target_intensity: u8,
        current_leds: LEDState,
        current_intensity: u8,
    ) -> (r: Result<WriteOutcome, UsbError>)
        requires
            wf_sim(*old(self)),
            target_intensity <= MAX_INTENSITY,
        ensures
            wf_sim(*final(self)),
            same_behavior(*old(self), *final(self)),
            // no-op write: an equal target issues no call at all
            target_leds == current_leds && target_intensity == current_intensity ==> r == Ok::<
                WriteOutcome,
                UsbError,
            >(WriteOutcome::NothingToUpdate) && final(self).log@ == old(self).log@ && final(self).driver_active@ == old(self).driver_active@ && final(self).claimed@ == old(self).claimed@ && final(self).last_written == old(self).last_written,
            // an update is needed but the device has no writable interrupt
            // endpoint
            !(target_leds == current_leds && target_intensity == current_intensity)
                && spec_first_writable(old(self).endpoints@) is None ==> r == Err::<
                WriteOutcome,
                UsbError,
            >(UsbError::EndpointNotFound) && final(self).log@ == old(self).log@ && final(self).last_written == old(self).last_written,
            // a failing detach aborts before anything is configured
            ({
                let fw = spec_first_writable(old(self).endpoints@);
                !(target_leds == current_leds && target_intensity == current_intensity)
                    && fw is Some ==> {
                    let e = fw->Some_0;
                    !detach_ok(*old(self), e.iface) ==> r == Err::<WriteOutcome, UsbError>(
                        UsbError::DriverDetach { iface: e.iface },
                    ) && final(self).log@ == old(self).log@ + detach_seq(*old(self), e.iface)
                        && final(self).last_written == old(self).last_written
                }
            }),
            // a failing configure or claim aborts; nothing is released
            ({
                let fw = spec_first_writable(old(self).endpoints@);
                !(target_leds == current_leds && target_intensity == current_intensity)
                    && fw is Some ==> {
                    let e = fw->Some_0;
                    detach_ok(*old(self), e.iface) && !configure_ok(*old(self)) ==> r == Err::<
                        WriteOutcome,
                        UsbError,
                    >(UsbError::Claim { iface: e.iface }) && final(self).log@ == old(self).log@
                        + detach_seq(*old(self), e.iface) + configure_seq(*old(self), e)
                        && final(self).last_written == old(self).last_written
                }
            }),
            // the write transfer failed: the release is still attempted and
            // the transfer error is what is reported
            ({
                let fw = spec_first_writable(old(self).endpoints@);
                !(target_leds == current_leds && target_intensity == current_intensity)
                    && fw is Some ==> {
                    let e = fw->Some_0;
                    detach_ok(*old(self), e.iface) && configure_ok(*old(self)) && old(self).write_reply is None ==> r == Err::<WriteOutcome, UsbError>(
                        UsbError::Transfer { endpoint: e.address },
                    ) && final(self).log@ == old(self).log@ + write_attempt_tail(*old(self), e)
                        && final(self).last_written == old(self).last_written
                }
            }),
            // length validation: a write transfer reporting any byte count
            // other than the fixed packet length is a length-mismatch error,
            // never a silent success; the release is still attempted
            ({
                let fw = spec_first_writable(old(self).endpoints@);
                !(target_leds == current_leds && target_intensity == current_intensity)
                    && fw is Some && old(self).write_reply is Some ==> {
                    let e = fw->Some_0;
                    let n = old(self).write_reply->Some_0;
                    detach_ok(*old(self), e.iface) && configure_ok(*old(self)) && n
                        != WARTHOG_PACKET_DATA_LENGTH ==> r == Err::<WriteOutcome, UsbError>(
                        UsbError::LengthMismatch {
                            expected: WARTHOG_PACKET_DATA_LENGTH,
                            actual: n,
                        },
                    ) && final(self).log@ == old(self).log@ + write_attempt_tail(*old(self), e)
                }
            }),
            // whenever a packet reached the device, it requests exactly the
            // target state: the encoded LED bitmask and the intensity byte
            ({
                let fw = spec_first_writable(old(self).endpoints@);
                !(target_leds == current_leds && target_intensity == current_intensity)
                    && fw is Some ==> {
                    let e = fw->Some_0;
                    detach_ok(*old(self), e.iface) && configure_ok(*old(self)) && old(self).write_reply is Some ==> (final(self).last_written matches Some(p) && p@.len()
                        == WARTHOG_PACKET_DATA_LENGTH && p@[LED_BYTE_INDEX as int] == led_mask(
                        target_leds,
                    ) && p@[INTENSITY_BYTE_INDEX as int] == target_intensity)
                }
            }),
            // the full path: the transferred count validated, the terminal
            // release's error propagates
            ({
                let fw = spec_first_writable(old(self).endpoints@);
                !(target_leds == current_leds && target_intensity == current_intensity)
                    && fw is Some ==> {
                    let e = fw->Some_0;
                    let had = old(self).driver_active@[e.iface as int];
                    detach_ok(*old(self), e.iface) && configure_ok(*old(self)) && old(self).write_reply == Some(WARTHOG_PACKET_DATA_LENGTH) ==> final(self).log@ == old(self).log@ + write_attempt_tail(*old(self), e) && (!release_ok(*old(self), had)
                        ==> r == Err::<WriteOutcome, UsbError>(UsbError::Release { iface: e.iface }))
                        && (release_ok(*old(self), had) ==> r == Ok::<WriteOutcome, UsbError>(
                        WriteOutcome::Written,
                    ) && final(self).driver_active@ == old(self).driver_active@ && final(self).claimed@ == old(self).claimed@.update(e.iface as int, false))
                }
            }),
            // a successful write is never reported for a short or long
            // transfer
            r == Ok::<WriteOutcome, UsbError>(WriteOutcome::Written) ==> old(self).write_reply
                == Some(WARTHOG_PACKET_DATA_LENGTH),
    {
        if target_leds == current_leds && target_intensity == current_intensity {
            return Ok(WriteOutcome::NothingToUpdate);
        }
        let ep_opt = first_writable(&self.endpoints);
        let ep = match ep_opt {
            None => {
                return Err(UsbError::EndpointNotFound);
            },
            Some(e) => e,
        };
        let had = match self.ensure_detached(ep.iface) {
            Ok(b) => b,
            Err(e) => {
                return Err(e);
            },
        };
        match self.configure(&ep) {
            Ok(u) => u,
            Err(e) => {
                return Err(e);
            },
        };
        let packet = encode(target_leds, target_intensity);
        let wrote = match self.write_transfer(ep.address, &packet) {
            Ok(n) => n,
            Err(e) => {
                let _ = self.release(ep.iface, had);
                proof {
                    assert(self.log@ =~= old(self).log@ + write_attempt_tail(*old(self), ep));
                }
                return Err(e);
            },
        };
        match validate_write_length(wrote) {
            Ok(u) => u,
            Err(e) => {
                let _ = self.release(ep.iface, had);
                proof {
                    assert(self.log@ =~= old(self).log@ + write_attempt_tail(*old(self), ep));
                }
                return Err(e);
            },
        };
        let released = self.release(ep.iface, had);
        proof {
            assert(self.log@ =~= old(self).log@ + write_attempt_tail(*old(self), ep));
            if !self.release_fails {
                assert(self.claimed@ =~= old(self).claimed@.update(ep.iface as int, false));
            }
            if had && !self.release_fails && !self.attach_fails {
                assert(self.driver_active@ =~= old(self).driver_active@);
            }
        }
        match released {
            Ok(u) => u,
            Err(e) => {
                return Err(e);
            },
        };
        Ok(WriteOutcome::Written)
    }
}

/// The calls an attempted read makes once a readable endpoint is selected
/// and the claim path succeeds: arbitration, configuration, the read
/// transfer, and the cleanup.
pub open spec fn read_attempt_tail(d: SimDevice, e: EndpointInfo) -> Seq<SimAction> {
    detach_seq(d, e.iface) + configure_seq(d, e) + seq![SimAction::ReadTransfer(e.address)]
        + release_seq(d, e.iface, d.driver_active@[e.iface as int])
}

/// The calls an attempted write makes once a writable endpoint is selected
/// and the claim path succeeds: arbitration, configuration, the write
/// transfer, and the cleanup.
pub open spec fn write_attempt_tail(d: SimDevice, e: EndpointInfo) -> Seq<SimAction> {
    detach_seq(d, e.iface) + configure_seq(d, e) + seq![SimAction::WriteTransfer(e.address)]
        + release_seq(d, e.iface, d.driver_active@[e.iface as int])
}

/// Fail-fast with best-effort cleanup, stated over the call trace: in the
/// calls of any attempted read whose claim path succeeded, the release call
/// on the claimed interface occurs exactly once, whatever the driver,
/// transfer and cleanup behaviours were.
pub proof fn lemma_read_release_exactly_once(d: SimDevice, e: EndpointInfo)
    ensures
        occurs_exactly_once(read_attempt_tail(d, e), SimAction::ReleaseInterface(e.iface)),
{
    let s = read_attempt_tail(d, e);
    let k = detach_seq(d, e.iface).len() + configure_seq(d, e).len() + 1;
    assert(s[k as int] == SimAction::ReleaseInterface(e.iface));
}

/// The same cleanup law for the calls of any attempted write.
pub proof fn lemma_write_release_exactly_once(d: SimDevice, e: EndpointInfo)
    ensures
        occurs_exactly_once(write_attempt_tail(d, e), SimAction::ReleaseInterface(e.iface)),
{
    let s = write_attempt_tail(d, e);
    let k = detach_seq(d, e.iface).len() + configure_seq(d, e).len() + 1;
    assert(s[k as int] == SimAction::ReleaseInterface(e.iface));
}

/// A kernel driver this session did not detach is never reattached: the
/// cleanup's calls hold a reattach attempt only when the paired arbitration
/// reported that it detached a driver.
pub proof fn lemma_no_foreign_reattach(d: SimDevice, iface: u8, had_kernel_driver: bool)
    ensures
        release_seq(d, iface, had_kernel_driver).contains(SimAction::AttachDriver(iface))
            ==> had_kernel_driver,
{
}

/// Driver restoration symmetry over the call trace: when the cleanup's own
/// release step succeeds, an operation's calls hold the reattach attempt
/// exactly when they hold this session's detach attempt — a driver is
/// reattached if and only if this session detached it.
pub proof fn lemma_driver_restoration_symmetry(d: SimDevice, e: EndpointInfo)
    requires
        !d.release_fails,
    ensures
        read_attempt_tail(d, e).contains(SimAction::AttachDriver(e.iface))
            <==> read_attempt_tail(d, e).contains(SimAction::DetachDriver(e.iface)),
{
    let s = read_attempt_tail(d, e);
    if d.driver_active@[e.iface as int] {
        assert(s[1] == SimAction::DetachDriver(e.iface));
        assert(s[s.len() - 1] == SimAction::AttachDriver(e.iface));
    }
}

/// The same restoration symmetry for the calls of any attempted write.
pub proof fn lemma_write_driver_restoration_symmetry(d: SimDevice, e: EndpointInfo)
    requires
        !d.release_fails,
    ensures
        write_attempt_tail(d, e).contains(SimAction::AttachDriver(e.iface))
            <==> write_attempt_tail(d, e).contains(SimAction::DetachDriver(e.iface)),
{
    let s = write_attempt_tail(d, e);
    if d.driver_active@[e.iface as int] {
        assert(s[1] == SimAction::DetachDriver(e.iface));
        assert(s[s.len() - 1] == SimAction::AttachDriver(e.iface));
    }
}

} // verus!
