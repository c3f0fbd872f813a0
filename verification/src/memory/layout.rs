//! The layout of the device's address space and of its registers.

use vstd::prelude::*;

use crate::bits::{field, lemma_field_value};
use crate::memory::chip::{
    IoControlRegister, OscillatorControlRegister, IOCON_INTOD, IOCON_SOF, IOCON_TXCANOD,
    IOCON_XSTBYEN, OSC_CLKODIV, OSC_OSCDIS, OSC_OSCRDY, OSC_PLLEN, OSC_PLLRDY, OSC_SCLKDIV,
};
use crate::memory::controller::configuration::{
    CanControlRegister, DataBitTimeConfigurationRegister, NominalBitTimeConfigurationRegister,
    OperationMode, TimeBaseCounterRegister, TimeStampControlRegister,
    TransmitterDelayCompensationMode, TransmitterDelayCompensationRegister, CON_DNCNT, CON_OPMOD,
    CON_REQOP, CON_RTXAT, CON_STEF, CON_TXQEN, DBTCFG_BRP, DBTCFG_SJW, DBTCFG_TSEG1, DBTCFG_TSEG2,
    NBTCFG_BRP, NBTCFG_SJW, NBTCFG_TSEG1, NBTCFG_TSEG2, TDC_TDCMOD, TDC_TDCO, TDC_TDCV, TSCON_TBCEN,
    TSCON_TBCPRE,
};
use crate::memory::controller::fifo::{
    payload_bytes, ram_address, FifoControlRegister, FifoNumber, FifoStatusRegister, PayloadSize,
    RetransmissionAttempts, TxEventFifoControlRegister, TxEventFifoStatusRegister,
    TxQueueControlRegister, TxQueueStatusRegister, UserAddressKind, UserAddressRegister,
    FIFOCON_FSIZE, FIFOCON_PLSIZE, FIFOCON_RTREN, FIFOCON_RXOVIE, FIFOCON_RXTSEN, FIFOCON_TFERFFIE,
    FIFOCON_TFHRFHIE, FIFOCON_TFNRFNIE, FIFOCON_TXAT, FIFOCON_TXATIE, FIFOCON_TXEN, FIFOCON_TXPRI,
    FIFOCON_TXREQ, FIFOSTA_FIFOCI, FIFOSTA_RXOVIF, FIFOSTA_TFERFFIF, FIFOSTA_TFHRFHIF,
    FIFOSTA_TFNRFNIF, FIFOSTA_TXATIF, TEFCON_TEFFIE, TEFCON_TEFHIE, TEFCON_TEFNEIE, TEFCON_TEFOVIE,
    TEFCON_TEFTSEN, TEFSTA_TEFFIF, TEFSTA_TEFHIF, TEFSTA_TEFNEIF, TEFSTA_TEFOVIF, TXQCON_TXATIE,
    TXQCON_TXPRI, TXQCON_TXQEIE, TXQCON_TXQNIE, TXQCON_TXREQ, TXQSTA_TXATIF, TXQSTA_TXQEIF,
    TXQSTA_TXQNIF, UA_OFFSET,
};
use crate::memory::controller::filter::{
    enable_position, pointer_position, FilterControlNumber, FilterControlRegister, FilterNumber,
    FilterObjectRegister, MaskRegister, FLTOBJ_EID, FLTOBJ_EXIDE, FLTOBJ_SID, MASK_MEID, MASK_MIDE,
    MASK_MSID,
};
use crate::memory::controller::interrupt::{
    InterruptCodeRegister, InterruptRegister, RxInterruptStatusRegister,
    RxOverflowInterruptStatusRegister, TxAttemptInterruptStatusRegister, TxInterruptStatusRegister,
    INT_CERRIE, INT_CERRIF, INT_ECCIE, INT_ECCIF, INT_IVMIE, INT_IVMIF, INT_MODIF, INT_RXIE,
    INT_RXIF, INT_RXOVIF, INT_SERRIE, INT_SERRIF, INT_SPICRCIE, INT_SPICRCIF, INT_TBCIE, INT_TBCIF,
    INT_TEFIF, INT_TXATIF, INT_TXIE, INT_TXIF, INT_WAKIF, VEC_FILHIT, VEC_ICODE, VEC_RXCODE,
    VEC_TXCODE,
};
use crate::memory::{
    in_ram, ClearableFlags, Register, RegisterValue, RepeatedRegister, SFRAddress,
};

verus! {

/// FIFOs are numbered as they are named.
pub proof fn lemma_fifo_numbers()
    ensures
        FifoNumber::Fifo1.index() == 1,
        FifoNumber::Fifo2.index() == 2,
        FifoNumber::Fifo3.index() == 3,
        FifoNumber::Fifo4.index() == 4,
        FifoNumber::Fifo5.index() == 5,
        FifoNumber::Fifo6.index() == 6,
        FifoNumber::Fifo7.index() == 7,
        FifoNumber::Fifo8.index() == 8,
        FifoNumber::Fifo9.index() == 9,
        FifoNumber::Fifo10.index() == 10,
        FifoNumber::Fifo11.index() == 11,
        FifoNumber::Fifo12.index() == 12,
        FifoNumber::Fifo13.index() == 13,
        FifoNumber::Fifo14.index() == 14,
        FifoNumber::Fifo15.index() == 15,
        FifoNumber::Fifo16.index() == 16,
        FifoNumber::Fifo17.index() == 17,
        FifoNumber::Fifo18.index() == 18,
        FifoNumber::Fifo19.index() == 19,
        FifoNumber::Fifo20.index() == 20,
        FifoNumber::Fifo21.index() == 21,
        FifoNumber::Fifo22.index() == 22,
        FifoNumber::Fifo23.index() == 23,
        FifoNumber::Fifo24.index() == 24,
        FifoNumber::Fifo25.index() == 25,
        FifoNumber::Fifo26.index() == 26,
        FifoNumber::Fifo27.index() == 27,
        FifoNumber::Fifo28.index() == 28,
        FifoNumber::Fifo29.index() == 29,
        FifoNumber::Fifo30.index() == 30,
        FifoNumber::Fifo31.index() == 31,
{
}

/// Filters are numbered as they are named.
pub proof fn lemma_filter_numbers()
    ensures
        FilterNumber::Filter0.index() == 0,
        FilterNumber::Filter1.index() == 1,
        FilterNumber::Filter2.index() == 2,
        FilterNumber::Filter3.index() == 3,
        FilterNumber::Filter4.index() == 4,
        FilterNumber::Filter5.index() == 5,
        FilterNumber::Filter6.index() == 6,
        FilterNumber::Filter7.index() == 7,
        FilterNumber::Filter8.index() == 8,
        FilterNumber::Filter9.index() == 9,
        FilterNumber::Filter10.index() == 10,
        FilterNumber::Filter11.index() == 11,
        FilterNumber::Filter12.index() == 12,
        FilterNumber::Filter13.index() == 13,
        FilterNumber::Filter14.index() == 14,
        FilterNumber::Filter15.index() == 15,
        FilterNumber::Filter16.index() == 16,
        FilterNumber::Filter17.index() == 17,
        FilterNumber::Filter18.index() == 18,
        FilterNumber::Filter19.index() == 19,
        FilterNumber::Filter20.index() == 20,
        FilterNumber::Filter21.index() == 21,
        FilterNumber::Filter22.index() == 22,
        FilterNumber::Filter23.index() == 23,
        FilterNumber::Filter24.index() == 24,
        FilterNumber::Filter25.index() == 25,
        FilterNumber::Filter26.index() == 26,
        FilterNumber::Filter27.index() == 27,
        FilterNumber::Filter28.index() == 28,
        FilterNumber::Filter29.index() == 29,
        FilterNumber::Filter30.index() == 30,
        FilterNumber::Filter31.index() == 31,
{
}

/// Filter control registers are numbered as they are named.
pub proof fn lemma_filter_control_numbers()
    ensures
        FilterControlNumber::Control0.index() == 0,
        FilterControlNumber::Control1.index() == 1,
        FilterControlNumber::Control2.index() == 2,
        FilterControlNumber::Control3.index() == 3,
        FilterControlNumber::Control4.index() == 4,
        FilterControlNumber::Control5.index() == 5,
        FilterControlNumber::Control6.index() == 6,
        FilterControlNumber::Control7.index() == 7,
{
}

/// Each filter control register holds four consecutive filters, one per byte: the buffer pointer
/// in the byte's lowest bits, the enable bit in its highest.
pub proof fn lemma_filter_places(filter: FilterNumber, place: u8)
    requires
        place < 4,
    ensures
        filter.control().index() == filter.index() / 4,
        filter.index() < 32,
        pointer_position(place) == 8 * place,
        enable_position(place) == 8 * place + 7,
{
}

/// The addresses of the registers.
pub proof fn lemma_address_map(
    fifo: FifoNumber,
    control: FilterControlNumber,
    filter: FilterNumber,
)
    ensures
        SFRAddress::C1CON.address() == 0x000,
        SFRAddress::C1NBTCFG.address() == 0x004,
        SFRAddress::C1DBTCFG.address() == 0x008,
        SFRAddress::C1TDC.address() == 0x00C,
        SFRAddress::C1TBC.address() == 0x010,
        SFRAddress::C1TSCON.address() == 0x014,
        SFRAddress::C1VEC.address() == 0x018,
        SFRAddress::C1INT.address() == 0x01C,
        SFRAddress::C1RXIF.address() == 0x020,
        SFRAddress::C1TXIF.address() == 0x024,
        SFRAddress::C1RXOVIF.address() == 0x028,
        SFRAddress::C1TXATIF.address() == 0x02C,
        SFRAddress::C1TEFCON.address() == 0x040,
        SFRAddress::C1TEFSTA.address() == 0x044,
        SFRAddress::C1TEFUA.address() == 0x048,
        SFRAddress::C1TXQCON.address() == 0x050,
        SFRAddress::C1TXQSTA.address() == 0x054,
        SFRAddress::C1TXQUA.address() == 0x058,
        SFRAddress::OSC.address() == 0xE00,
        SFRAddress::IOCON.address() == 0xE04,
        SFRAddress::C1FIFOCON(fifo).address() == 0x05C + 12 * (fifo.index() - 1),
        SFRAddress::C1FIFOSTA(fifo).address() == 0x060 + 12 * (fifo.index() - 1),
        SFRAddress::C1FIFOUA(fifo).address() == 0x064 + 12 * (fifo.index() - 1),
        SFRAddress::C1FLTCON(control).address() == 0x1D0 + 4 * control.index(),
        SFRAddress::C1FLTOBJ(filter).address() == 0x1F0 + 8 * filter.index(),
        SFRAddress::C1MASK(filter).address() == 0x1F4 + 8 * filter.index(),
{
}

/// Which register each typed view is a view of.
pub proof fn lemma_register_places(
    fifo: FifoNumber,
    control: FilterControlNumber,
    filter: FilterNumber,
)
    ensures
        <OscillatorControlRegister as Register>::address() == SFRAddress::OSC,
        <IoControlRegister as Register>::address() == SFRAddress::IOCON,
        <CanControlRegister as Register>::address() == SFRAddress::C1CON,
        <NominalBitTimeConfigurationRegister as Register>::address() == SFRAddress::C1NBTCFG,
        <DataBitTimeConfigurationRegister as Register>::address() == SFRAddress::C1DBTCFG,
        <TransmitterDelayCompensationRegister as Register>::address() == SFRAddress::C1TDC,
        <TimeBaseCounterRegister as Register>::address() == SFRAddress::C1TBC,
        <TimeStampControlRegister as Register>::address() == SFRAddress::C1TSCON,
        <TxEventFifoControlRegister as Register>::address() == SFRAddress::C1TEFCON,
        <TxEventFifoStatusRegister as Register>::address() == SFRAddress::C1TEFSTA,
        <TxQueueControlRegister as Register>::address() == SFRAddress::C1TXQCON,
        <TxQueueStatusRegister as Register>::address() == SFRAddress::C1TXQSTA,
        <InterruptCodeRegister as Register>::address() == SFRAddress::C1VEC,
        <InterruptRegister as Register>::address() == SFRAddress::C1INT,
        <RxInterruptStatusRegister as Register>::address() == SFRAddress::C1RXIF,
        <RxOverflowInterruptStatusRegister as Register>::address() == SFRAddress::C1RXOVIF,
        <TxInterruptStatusRegister as Register>::address() == SFRAddress::C1TXIF,
        <TxAttemptInterruptStatusRegister as Register>::address() == SFRAddress::C1TXATIF,
        <FifoControlRegister as RepeatedRegister>::address_for(fifo) == SFRAddress::C1FIFOCON(fifo),
        <FifoStatusRegister as RepeatedRegister>::address_for(fifo) == SFRAddress::C1FIFOSTA(fifo),
        <FilterControlRegister as RepeatedRegister>::address_for(control)
            == SFRAddress::C1FLTCON(control),
        <FilterObjectRegister as RepeatedRegister>::address_for(filter)
            == SFRAddress::C1FLTOBJ(filter),
        <MaskRegister as RepeatedRegister>::address_for(filter) == SFRAddress::C1MASK(filter),
        <UserAddressRegister as RepeatedRegister>::address_for(UserAddressKind::TxEventFifo)
            == SFRAddress::C1TEFUA,
        <UserAddressRegister as RepeatedRegister>::address_for(UserAddressKind::TxQueue)
            == SFRAddress::C1TXQUA,
        <UserAddressRegister as RepeatedRegister>::address_for(UserAddressKind::Fifo(fifo))
            == SFRAddress::C1FIFOUA(fifo),
{
}

/// The flags that hardware sets and that are cleared by writing 0: TBCIF, MODIF, SERRIF, CERRIF,
/// WAKIF and IVMIF of C1INT; RXOVIF and TXATIF of a FIFO; TXATIF of the transmit queue; TEFOVIF
/// of the transmit event FIFO.
pub proof fn lemma_clearable_flags()
    ensures
        InterruptRegister::clearable() == 0x0000_F00C,
        FifoStatusRegister::clearable() == 0x0000_0018,
        TxQueueStatusRegister::clearable() == 0x0000_0010,
        TxEventFifoStatusRegister::clearable() == 0x0000_0008,
{
}

/// The codes of operation modes, retransmission limits, delay compensation modes and payload
/// sizes.
pub proof fn lemma_codes()
    ensures
        OperationMode::NormalCanFd.code() == 0,
        OperationMode::Sleep.code() == 1,
        OperationMode::InternalLoopback.code() == 2,
        OperationMode::ListenOnly.code() == 3,
        OperationMode::Configuration.code() == 4,
        OperationMode::ExternalLoopback.code() == 5,
        OperationMode::NormalCan20.code() == 6,
        OperationMode::RestrictedOperation.code() == 7,
        RetransmissionAttempts::Disabled.code() == 0,
        RetransmissionAttempts::Three.code() == 1,
        RetransmissionAttempts::Unlimited.code() == 2,
        TransmitterDelayCompensationMode::Disabled.code() == 0,
        TransmitterDelayCompensationMode::Manual.code() == 1,
        TransmitterDelayCompensationMode::Automatic.code() == 2,
        PayloadSize::Bytes8.code() == 0,
        PayloadSize::Bytes8.bytes() == 8,
        PayloadSize::Bytes12.code() == 1,
        PayloadSize::Bytes12.bytes() == 12,
        PayloadSize::Bytes16.code() == 2,
        PayloadSize::Bytes16.bytes() == 16,
        PayloadSize::Bytes20.code() == 3,
        PayloadSize::Bytes20.bytes() == 20,
        PayloadSize::Bytes24.code() == 4,
        PayloadSize::Bytes24.bytes() == 24,
        PayloadSize::Bytes32.code() == 5,
        PayloadSize::Bytes32.bytes() == 32,
        PayloadSize::Bytes48.code() == 6,
        PayloadSize::Bytes48.bytes() == 48,
        PayloadSize::Bytes64.code() == 7,
        PayloadSize::Bytes64.bytes() == 64,
{
}

/// A control register that holds the code of a payload size reserves that many bytes per message.
pub proof fn lemma_payload_area(control: u32, size: PayloadSize)
    requires
        field(control, 29, 3) == size.code(),
    ensures
        payload_bytes(control) == size.bytes(),
{
}

/// Every code of a payload size is that of one.
pub proof fn lemma_payload_area_exists(control: u32) -> (size: PayloadSize)
    ensures
        size.code() == field(control, 29, 3),
        size.bytes() == payload_bytes(control),
{
    vstd::arithmetic::power2::lemma2_to64();
    lemma_field_value(control, 29, 3);
    match field(control, 29, 3) {
        0 => PayloadSize::Bytes8,
        1 => PayloadSize::Bytes12,
        2 => PayloadSize::Bytes16,
        3 => PayloadSize::Bytes20,
        4 => PayloadSize::Bytes24,
        5 => PayloadSize::Bytes32,
        6 => PayloadSize::Bytes48,
        _ => PayloadSize::Bytes64,
    }
}

/// User addresses count from the start of the RAM, in the low 12 bits of their register.
pub proof fn lemma_user_address(raw: u32)
    ensures
        ram_address(raw) == 0x400 + raw % 0x1000,
{
    vstd::arithmetic::power2::lemma2_to64();
    lemma_field_value(raw, 0, 12);
}

/// The RAM is the 2 KiB from 0x400 on.
pub proof fn lemma_ram_bounds(address: int, length: int)
    ensures
        in_ram(address, length) <==> 0x400 <= address < 0xC00 && address + length <= 0xC00,
{
}

/// Where the fields of the oscillator and of the I/O pins begin.
pub proof fn lemma_chip_fields()
    ensures
        OSC_PLLEN == 0,
        OSC_OSCDIS == 2,
        OSC_SCLKDIV == 4,
        OSC_CLKODIV == 5,
        OSC_PLLRDY == 8,
        OSC_OSCRDY == 10,
        IOCON_XSTBYEN == 6,
        IOCON_TXCANOD == 28,
        IOCON_SOF == 29,
        IOCON_INTOD == 30,
{
}

/// Where the fields of the control, bit timing and timestamp registers begin.
pub proof fn lemma_configuration_fields()
    ensures
        CON_OPMOD == 21,
        CON_REQOP == 24,
        CON_DNCNT == 0,
        CON_RTXAT == 16,
        CON_STEF == 19,
        CON_TXQEN == 20,
        NBTCFG_SJW == 0,
        NBTCFG_TSEG2 == 8,
        NBTCFG_TSEG1 == 16,
        NBTCFG_BRP == 24,
        DBTCFG_SJW == 0,
        DBTCFG_TSEG2 == 8,
        DBTCFG_TSEG1 == 16,
        DBTCFG_BRP == 24,
        TDC_TDCMOD == 16,
        TDC_TDCV == 0,
        TDC_TDCO == 8,
        TSCON_TBCPRE == 0,
        TSCON_TBCEN == 16,
{
}

/// Where the fields of the transmit event FIFO, the transmit queue and the FIFOs begin.
pub proof fn lemma_fifo_fields()
    ensures
        FIFOCON_FSIZE == 24,
        FIFOCON_PLSIZE == 29,
        FIFOCON_TXAT == 21,
        FIFOCON_TFNRFNIE == 0,
        FIFOCON_TFHRFHIE == 1,
        FIFOCON_TFERFFIE == 2,
        FIFOCON_RXOVIE == 3,
        FIFOCON_TXATIE == 4,
        FIFOCON_RXTSEN == 5,
        FIFOCON_RTREN == 6,
        FIFOCON_TXEN == 7,
        FIFOCON_TXREQ == 9,
        FIFOCON_TXPRI == 16,
        FIFOSTA_TFNRFNIF == 0,
        FIFOSTA_TFHRFHIF == 1,
        FIFOSTA_TFERFFIF == 2,
        FIFOSTA_RXOVIF == 3,
        FIFOSTA_TXATIF == 4,
        FIFOSTA_FIFOCI == 8,
        TEFCON_TEFNEIE == 0,
        TEFCON_TEFHIE == 1,
        TEFCON_TEFFIE == 2,
        TEFCON_TEFOVIE == 3,
        TEFCON_TEFTSEN == 5,
        TEFSTA_TEFNEIF == 0,
        TEFSTA_TEFHIF == 1,
        TEFSTA_TEFFIF == 2,
        TEFSTA_TEFOVIF == 3,
        TXQCON_TXQNIE == 0,
        TXQCON_TXQEIE == 2,
        TXQCON_TXATIE == 4,
        TXQCON_TXREQ == 9,
        TXQCON_TXPRI == 16,
        TXQSTA_TXQNIF == 0,
        TXQSTA_TXQEIF == 2,
        TXQSTA_TXATIF == 4,
        UA_OFFSET == 0,
{
}

/// Where the fields of filter objects and masks begin.
pub proof fn lemma_filter_fields()
    ensures
        FLTOBJ_SID == 0,
        FLTOBJ_EID == 11,
        FLTOBJ_EXIDE == 30,
        MASK_MSID == 0,
        MASK_MEID == 11,
        MASK_MIDE == 30,
{
}

/// Where the fields of the interrupt registers begin.
pub proof fn lemma_interrupt_fields()
    ensures
        VEC_ICODE == 0,
        VEC_FILHIT == 8,
        VEC_TXCODE == 16,
        VEC_RXCODE == 24,
        INT_TXIF == 0,
        INT_RXIF == 1,
        INT_TBCIF == 2,
        INT_MODIF == 3,
        INT_TEFIF == 4,
        INT_ECCIF == 8,
        INT_SPICRCIF == 9,
        INT_TXATIF == 10,
        INT_RXOVIF == 11,
        INT_SERRIF == 12,
        INT_CERRIF == 13,
        INT_WAKIF == 14,
        INT_IVMIF == 15,
        INT_TXIE == 16,
        INT_RXIE == 17,
        INT_TBCIE == 18,
        INT_ECCIE == 24,
        INT_SPICRCIE == 25,
        INT_SERRIE == 28,
        INT_CERRIE == 29,
        INT_IVMIE == 31,
{
}

/// A typed view of a register holds exactly the register's contents.
pub proof fn lemma_register_contents(raw: u32)
    ensures
        OscillatorControlRegister(raw).bits() == raw,
        IoControlRegister(raw).bits() == raw,
        CanControlRegister(raw).bits() == raw,
        NominalBitTimeConfigurationRegister(raw).bits() == raw,
        DataBitTimeConfigurationRegister(raw).bits() == raw,
        TransmitterDelayCompensationRegister(raw).bits() == raw,
        TimeBaseCounterRegister(raw).bits() == raw,
        TimeStampControlRegister(raw).bits() == raw,
        TxEventFifoControlRegister(raw).bits() == raw,
        TxEventFifoStatusRegister(raw).bits() == raw,
        TxQueueControlRegister(raw).bits() == raw,
        TxQueueStatusRegister(raw).bits() == raw,
        InterruptCodeRegister(raw).bits() == raw,
        InterruptRegister(raw).bits() == raw,
        RxInterruptStatusRegister(raw).bits() == raw,
        RxOverflowInterruptStatusRegister(raw).bits() == raw,
        TxInterruptStatusRegister(raw).bits() == raw,
        TxAttemptInterruptStatusRegister(raw).bits() == raw,
        FifoControlRegister(raw).bits() == raw,
        FifoStatusRegister(raw).bits() == raw,
        FilterControlRegister(raw).bits() == raw,
        FilterObjectRegister(raw).bits() == raw,
        MaskRegister(raw).bits() == raw,
        UserAddressRegister(raw).bits() == raw,
{
}

} // verus!
