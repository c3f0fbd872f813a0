//! Changes of registers that depend on what the registers hold.

use core::marker::PhantomData;

use vstd::prelude::*;

use crate::memory::{ClearableFlags, Register, RegisterValue, RepeatedRegister, SFRAddress};
use crate::spi::operation::{
    completion, completion_of, register_access, word, word_from, Action, Operation,
};
use crate::spi::transfer::{Access, Progress, Reply};
use crate::spi::{Error, MCP2518FD};

verus! {

/// The word that clears some flags of a register: the register as it was read, with every flag
/// that hardware can set written as 1 except for those to clear.
pub open spec fn clearing_word(raw: u32, clearable: u32, cleared: u32) -> u32 {
    (raw | clearable) & !cleared
}

/// What a register's clearable flags become when `written` is written while they are `current`:
/// writing 0 clears a flag, writing 1 leaves it as it is.
pub open spec fn flags_after_write(current: u32, written: u32, clearable: u32) -> u32 {
    current & written & clearable
}

/// Clearing flags clears exactly those flags: a flag that hardware sets between the read of
/// `raw` and the write survives, unless it is one of those to clear. Whatever else the register
/// holds is written back as it was read.
pub proof fn lemma_clearing_keeps_new_flags(raw: u32, set_later: u32, clearable: u32, cleared: u32)
    ensures
        flags_after_write(raw | set_later, clearing_word(raw, clearable, cleared), clearable) == (raw
            | set_later) & !cleared & clearable,
        clearing_word(raw, clearable, cleared) & !clearable == raw & !cleared & !clearable,
{
    assert(flags_after_write(raw | set_later, clearing_word(raw, clearable, cleared), clearable) == (
    raw | set_later) & !cleared & clearable && clearing_word(raw, clearable, cleared) & !clearable
        == raw & !cleared & !clearable) by (bit_vector);
}

/// Writing back the register as it was read, with the flags to clear reset, loses every flag
/// that hardware sets in between.
pub proof fn lemma_modifying_loses_new_flags(raw: u32, set_later: u32, clearable: u32, cleared: u32)
    ensures
        flags_after_write(raw | set_later, raw & !cleared, clearable) == raw & !cleared & clearable,
{
    assert(flags_after_write(raw | set_later, raw & !cleared, clearable) == raw & !cleared
        & clearable) by (bit_vector);
}

/// How far the change of a register has got.
enum Stage<F> {
    /// Reads the register, which the function then changes.
    Read(F),
    /// Writes the second word, having read the first one.
    Write(u32, u32),
}

/// A change of a register: it is read, transformed and written back.
#[verifier::reject_recursive_types(R)]
pub struct Modify<R: RegisterValue, F: FnOnce(R) -> R> {
    address: SFRAddress,
    stage: Stage<F>,
    marker: PhantomData<R>,
}

impl<R: RegisterValue, F: FnOnce(R) -> R> Modify<R, F> {
    #[verifier::type_invariant]
    spec fn is_applicable(self) -> bool {
        self.stage matches Stage::Read(transform) ==> forall|register: R| #[trigger]
            transform.requires((register,))
    }

    /// The register.
    pub closed spec fn address(self) -> SFRAddress {
        self.address
    }

    /// The transformation, as long as the register has not been read.
    pub closed spec fn transform(self) -> Option<F> {
        match self.stage {
            Stage::Read(transform) => Some(transform),
            Stage::Write(_, _) => None,
        }
    }

    /// The word to write, once the register has been read.
    pub closed spec fn written(self) -> u32 {
        self.stage->Write_1
    }

    /// A change that has not begun.
    fn begin(address: SFRAddress, transform: F) -> (change: Self)
        requires
            forall|register: R| #[trigger] transform.requires((register,)),
        ensures
            change.address() == address,
            change.transform() == Some(transform),
    {
        Modify { address, stage: Stage::Read(transform), marker: PhantomData }
    }
}

impl<R: RegisterValue, F: FnOnce(R) -> R> Operation for Modify<R, F> {
    type Output = Result<(), Error>;

    fn action(&self) -> (action: Action<Vec<u8>>)
        ensures
            match self.transform() {
                Some(_) => action@ == register_access(self.address(), false),
                None => action@ == Action::Access(
                    Access::<Seq<u8>>::WriteSfr(self.address(), self.written()),
                ),
            },
    {
        match &self.stage {
            Stage::Read(_) => Action::Access(Access::ReadSfr(self.address)),
            Stage::Write(_, value) => Action::Access(Access::WriteSfr(self.address, *value)),
        }
    }

    fn resume(self, reply: Reply<Vec<u8>>) -> (next: Progress<Self, Result<(), Error>>)
        ensures
            match self.transform() {
                Some(transform) => match word(reply@) {
                    Ok(raw) => {
                        &&& next matches Progress::Running(change)
                        &&& change.address() == self.address()
                        &&& change.transform() is None
                        &&& exists|register: R, changed: R|
                            #![trigger register.bits(), changed.bits()]
                            register.bits() == raw && transform.ensures((register,), changed)
                                && change.written() == changed.bits()
                    },
                    Err(error) => next == Progress::<Self, Result<(), Error>>::Finished(Err(error)),
                },
                None => next == Progress::<Self, Result<(), Error>>::Finished(completion(reply@)),
            },
    {
        proof {
            use_type_invariant(&self);
        }
        match self.stage {
            Stage::Read(transform) => match word_from(&reply) {
                Ok(raw) => {
                    let register = R::from_bits(raw);
                    let changed = transform(register);
                    let value: u32 = changed.into_bits();
                    Progress::Running(
                        Modify {
                            address: self.address,
                            stage: Stage::Write(raw, value),
                            marker: PhantomData,
                        },
                    )
                },
                Err(error) => Progress::Finished(Err(error)),
            },
            Stage::Write(_, _) => Progress::Finished(completion_of(&reply)),
        }
    }
}

/// A register after a change in place.
fn changed_by<R, F: FnOnce(&mut R)>(change: F, register: R) -> (changed: R)
    requires
        forall|before: &mut R| #[trigger] change.requires((before,)),
    ensures
        exists|before: &mut R|
            *before == register && *final(before) == changed && #[trigger] change.ensures(
                (before,),
                (),
            ),
{
    let mut register = register;
    change(&mut register);
    register
}

/// A reset of hardware-set flags of a register: it is read, every clearable flag is set in the
/// copy, the ones to clear are reset, and the copy is written back.
#[verifier::reject_recursive_types(R)]
pub struct ClearFlags<R: RegisterValue, F: FnOnce(&mut R)> {
    address: SFRAddress,
    /// Every flag of the register that hardware can set.
    clearable: u32,
    stage: Stage<F>,
    marker: PhantomData<R>,
}

impl<R: RegisterValue, F: FnOnce(&mut R)> ClearFlags<R, F> {
    #[verifier::type_invariant]
    spec fn is_applicable(self) -> bool {
        self.stage matches Stage::Read(clear) ==> forall|register: &mut R| #[trigger]
            clear.requires((register,))
    }

    /// The register.
    pub closed spec fn address(self) -> SFRAddress {
        self.address
    }

    /// Every flag of the register that hardware can set.
    pub closed spec fn clearable(self) -> u32 {
        self.clearable
    }

    /// What resets the flags to clear, as long as the register has not been read.
    pub closed spec fn clear(self) -> Option<F> {
        match self.stage {
            Stage::Read(clear) => Some(clear),
            Stage::Write(_, _) => None,
        }
    }

    /// The register as it was read.
    pub closed spec fn read(self) -> u32 {
        self.stage->Write_0
    }

    /// The word to write, once the register has been read.
    pub closed spec fn written(self) -> u32 {
        self.stage->Write_1
    }

    /// A reset that has not begun.
    fn begin(address: SFRAddress, clearable: u32, clear: F) -> (change: Self)
        requires
            forall|register: &mut R| #[trigger] clear.requires((register,)),
        ensures
            change.address() == address,
            change.clearable() == clearable,
            change.clear() == Some(clear),
    {
        ClearFlags { address, clearable, stage: Stage::Read(clear), marker: PhantomData }
    }
}

impl<R: RegisterValue, F: FnOnce(&mut R)> Operation for ClearFlags<R, F> {
    type Output = Result<R, Error>;

    fn action(&self) -> (action: Action<Vec<u8>>)
        ensures
            match self.clear() {
                Some(_) => action@ == register_access(self.address(), false),
                None => action@ == Action::Access(
                    Access::<Seq<u8>>::WriteSfr(self.address(), self.written()),
                ),
            },
    {
        match &self.stage {
            Stage::Read(_) => Action::Access(Access::ReadSfr(self.address)),
            Stage::Write(_, value) => Action::Access(Access::WriteSfr(self.address, *value)),
        }
    }

    fn resume(self, reply: Reply<Vec<u8>>) -> (next: Progress<Self, Result<R, Error>>)
        ensures
            match self.clear() {
                Some(_) => match word(reply@) {
                    Ok(raw) => next matches Progress::Running(change) && change.address()
                        == self.address() && change.clear() is None && change.read() == raw,
                    Err(error) => next == Progress::<Self, Result<R, Error>>::Finished(Err(error)),
                },
                None => match completion(reply@) {
                    Ok(_) => next matches Progress::Finished(Ok(register)) && register.bits()
                        == self.read(),
                    Err(error) => next == Progress::<Self, Result<R, Error>>::Finished(Err(error)),
                },
            },
            self.clear() is Some && word(reply@) is Ok ==> exists|register: &mut R|
                (*register).bits() == word(reply@)->Ok_0 | self.clearable()
                    && #[trigger] self.clear()->0.ensures((register,), ())
                    && next->Running_0.written() == (*final(register)).bits(),
    {
        proof {
            use_type_invariant(&self);
        }
        let ghost whole = self;
        match self.stage {
            Stage::Read(clear) => match word_from(&reply) {
                Ok(raw) => {
                    let register = changed_by(clear, R::from_bits(raw | self.clearable));
                    let value: u32 = register.into_bits();
                    let change = ClearFlags {
                        address: self.address,
                        clearable: self.clearable,
                        stage: Stage::Write(raw, value),
                        marker: PhantomData,
                    };
                    proof {
                        let before = choose|before: &mut R|
                            (*before).bits() == raw | whole.clearable()
                                && #[trigger] clear.ensures((before,), ())
                                && change.written() == (*final(before)).bits();
                        assert(whole.clear()->0 == clear);
                        assert(whole.clear()->0.ensures((before,), ()));
                    }
                    Progress::Running(change)
                },
                Err(error) => Progress::Finished(Err(error)),
            },
            Stage::Write(raw, _) => match completion_of(&reply) {
                Ok(_) => Progress::Finished(Ok(R::from_bits(raw))),
                Err(error) => Progress::Finished(Err(error)),
            },
        }
    }
}

impl<SPI> MCP2518FD<SPI> {
    /// Reads a register, applies `transform` and writes the result back.
    ///
    /// Do not use this to clear hardware-set flags: any flag set between the read and the write
    /// is written back as 0 and lost. Use [`MCP2518FD::clear_register_flags`] instead.
    pub fn modify_register<R: Register, F: FnOnce(R) -> R>(&self, transform: F) -> (change: Modify<
        R,
        F,
    >)
        requires
            forall|register: R| #[trigger] transform.requires((register,)),
        ensures
            change.address() == R::address(),
            change.transform() == Some(transform),
    {
        Modify::begin(R::get_address(), transform)
    }

    /// Reads a repeated register, applies `transform` and writes the result back.
    ///
    /// Do not use this to clear hardware-set flags: any flag set between the read and the write
    /// is written back as 0 and lost. Use [`MCP2518FD::clear_repeated_register_flags`] instead.
    pub fn modify_repeated_register<R: RepeatedRegister, F: FnOnce(R) -> R>(
        &self,
        index: R::Index,
        transform: F,
    ) -> (change: Modify<R, F>)
        requires
            forall|register: R| #[trigger] transform.requires((register,)),
        ensures
            change.address() == R::address_for(index),
            change.transform() == Some(transform),
    {
        Modify::begin(R::get_address_for(index), transform)
    }

    /// Clears hardware-set flags in a register without the read-modify-write race.
    ///
    /// `HS/C` flags are cleared by writing 0 and unaffected by writing 1. The register is read,
    /// every clearable flag is set to 1 in the copy, `clear` resets the ones to clear, and the
    /// result is written back. Flags set by hardware between the read and the write therefore
    /// survive, unlike with [`MCP2518FD::modify_register`]. Results in the register as it was
    /// read, so the caller can inspect which flags were pending.
    pub fn clear_register_flags<R: Register + ClearableFlags, F: FnOnce(&mut R)>(
        &self,
        clear: F,
    ) -> (change: ClearFlags<R, F>)
        requires
            forall|register: &mut R| #[trigger] clear.requires((register,)),
        ensures
            change.address() == R::address(),
            change.clearable() == R::clearable(),
            change.clear() == Some(clear),
    {
        ClearFlags::begin(R::get_address(), R::clearable_flags(), clear)
    }

    /// Clears hardware-set flags in a repeated register without the read-modify-write race.
    ///
    /// See [`MCP2518FD::clear_register_flags`].
    pub fn clear_repeated_register_flags<
        R: RepeatedRegister + ClearableFlags,
        F: FnOnce(&mut R),
    >(&self, index: R::Index, clear: F) -> (change: ClearFlags<R, F>)
        requires
            forall|register: &mut R| #[trigger] clear.requires((register,)),
        ensures
            change.address() == R::address_for(index),
            change.clearable() == R::clearable(),
            change.clear() == Some(clear),
    {
        ClearFlags::begin(R::get_address_for(index), R::clearable_flags(), clear)
    }
}

} // verus!
