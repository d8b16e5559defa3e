use vstd::prelude::*;

verus! {

/// Power-system status byte (payload byte 5), one flag per bit,
/// most-significant bit first.
#[derive(Debug, Clone, Copy, PartialEq, Eq, Structural)]
pub struct Data1Flags {
    /// Bit 7: 5V power line on/off.
    pub power_5v0: bool,
    /// Bit 6: antenna-deployment power line on/off.
    pub power_depant: bool,
    /// Bit 5: transponder power line on/off.
    pub power_com: bool,
    /// Bit 4: +X solar panel generating.
    pub sap_x_pos: bool,
    /// Bit 3: +Y solar panel generating.
    pub sap_y_pos: bool,
    /// Bit 2: -Y solar panel generating.
    pub sap_y_neg: bool,
    /// Bit 1: +Z solar panel generating.
    pub sap_z_pos: bool,
    /// Bit 0: -Z solar panel generating.
    pub sap_z_neg: bool,
}

/// Command status byte (payload byte 6): two small counters and one flag.
#[derive(Debug, Clone, Copy, PartialEq, Eq, Structural)]
pub struct Data2Flags {
    /// Bits 7-4, masked to 3 bits: reserved commands count.
    pub reserve_cmd_counter: u8,
    /// Bits 3-1: received commands count.
    pub cmd_uplink_counter: u8,
    /// Bit 0: KILL switch status.
    pub kill_sw: bool,
}

/// Mission status byte (payload byte 7): a counter, four flags, and a
/// 2-bit mission selector.
#[derive(Debug, Clone, Copy, PartialEq, Eq, Structural)]
pub struct Data3Flags {
    /// Bits 7-6: KILL switch occurrence count.
    pub kill_counter: u8,
    /// Bit 5: mission PIC on/off.
    pub mission_pic_on: bool,
    /// Bit 4: mission error flag.
    pub mis_error_flag: bool,
    /// Bit 3: mission end flag.
    pub mis_end_flag: bool,
    /// Bit 2: APRS mission execution flag.
    pub aprs_flag: bool,
    /// Bits 1-0: current mission selector (see [`CurrentMission`]).
    pub current_mis: u8,
}

/// The mission selected by bits 1-0 of the mission status byte.
/// Only three values are defined by the beacon; the fourth bit pattern is
/// reserved and reported as `Unknown` rather than rejected.
#[derive(Debug, Clone, Copy, PartialEq, Eq, Structural)]
pub enum CurrentMission {
    /// Selector 0: no mission running.
    NoMission,
    /// Selector 1: Earth observation mission.
    Earth,
    /// Selector 2: Sun observation mission.
    Sun,
    /// Any other selector: reserved bit pattern.
    Unknown,
}

/// The bitfield layout of the power-system status byte.
pub open spec fn spec_data1(byte: u8) -> Data1Flags {
    Data1Flags {
        power_5v0: byte & 0x80 != 0,
        power_depant: byte & 0x40 != 0,
        power_com: byte & 0x20 != 0,
        sap_x_pos: byte & 0x10 != 0,
        sap_y_pos: byte & 0x08 != 0,
        sap_y_neg: byte & 0x04 != 0,
        sap_z_pos: byte & 0x02 != 0,
        sap_z_neg: byte & 0x01 != 0,
    }
}

/// The bitfield layout of the command status byte.
pub open spec fn spec_data2(byte: u8) -> Data2Flags {
    Data2Flags {
        reserve_cmd_counter: (byte >> 4) & 0x07,
        cmd_uplink_counter: (byte >> 1) & 0x07,
        kill_sw: byte & 0x01 != 0,
    }
}

/// The bitfield layout of the mission status byte.
pub open spec fn spec_data3(byte: u8) -> Data3Flags {
    Data3Flags {
        kill_counter: (byte >> 6) & 0x03,
        mission_pic_on: byte & 0x20 != 0,
        mis_error_flag: byte & 0x10 != 0,
        mis_end_flag: byte & 0x08 != 0,
        aprs_flag: byte & 0x04 != 0,
        current_mis: byte & 0x03,
    }
}

/// The byte whose bits are the given power-system flags, most-significant
/// bit first.
pub open spec fn byte_of_data1(flags: Data1Flags) -> u8 {
    (if flags.power_5v0 { 0x80u8 } else { 0u8 })
        | (if flags.power_depant { 0x40u8 } else { 0u8 })
        | (if flags.power_com { 0x20u8 } else { 0u8 })
        | (if flags.sap_x_pos { 0x10u8 } else { 0u8 })
        | (if flags.sap_y_pos { 0x08u8 } else { 0u8 })
        | (if flags.sap_y_neg { 0x04u8 } else { 0u8 })
        | (if flags.sap_z_pos { 0x02u8 } else { 0u8 })
        | (if flags.sap_z_neg { 0x01u8 } else { 0u8 })
}

/// The mission named by a 2-bit selector value.
pub open spec fn spec_current_mission(selector: u8) -> CurrentMission {
    if selector == 0 {
        CurrentMission::NoMission
    } else if selector == 1 {
        CurrentMission::Earth
    } else if selector == 2 {
        CurrentMission::Sun
    } else {
        CurrentMission::Unknown
    }
}

/// Extracts the eight power-system flags of payload byte 5.
pub fn decode_data1(byte: u8) -> (flags: Data1Flags)
    ensures
        flags == spec_data1(byte),
{
    Data1Flags {
        power_5v0: byte & 0x80 != 0,
        power_depant: byte & 0x40 != 0,
        power_com: byte & 0x20 != 0,
        sap_x_pos: byte & 0x10 != 0,
        sap_y_pos: byte & 0x08 != 0,
        sap_y_neg: byte & 0x04 != 0,
        sap_z_pos: byte & 0x02 != 0,
        sap_z_neg: byte & 0x01 != 0,
    }
}

/// Extracts the command counters and the KILL switch flag of payload byte 6.
pub fn decode_data2(byte: u8) -> (flags: Data2Flags)
    ensures
        flags == spec_data2(byte),
{
    Data2Flags {
        reserve_cmd_counter: (byte >> 4) & 0x07,
        cmd_uplink_counter: (byte >> 1) & 0x07,
        kill_sw: byte & 0x01 != 0,
    }
}

/// Extracts the mission status fields of payload byte 7.
pub fn decode_data3(byte: u8) -> (flags: Data3Flags)
    ensures
        flags == spec_data3(byte),
{
    Data3Flags {
        kill_counter: (byte >> 6) & 0x03,
        mission_pic_on: byte & 0x20 != 0,
        mis_error_flag: byte & 0x10 != 0,
        mis_end_flag: byte & 0x08 != 0,
        aprs_flag: byte & 0x04 != 0,
        current_mis: byte & 0x03,
    }
}

impl Data3Flags {
    /// The mission selected by the `current_mis` bits.  Selector 3 is a
    /// reserved bit pattern and maps to `Unknown`, never to an error.
    pub fn current_mission(&self) -> (mission: CurrentMission)
        ensures
            mission == spec_current_mission(self.current_mis),
    {
        if self.current_mis == 0 {
            CurrentMission::NoMission
        } else if self.current_mis == 1 {
            CurrentMission::Earth
        } else if self.current_mis == 2 {
            CurrentMission::Sun
        } else {
            CurrentMission::Unknown
        }
    }
}

/// Law: reading a byte into the eight power-system flags and rebuilding the
/// byte from those flags, most-significant bit first, reproduces the byte.
pub proof fn lemma_data1_round_trip(byte: u8)
    ensures
        byte_of_data1(spec_data1(byte)) == byte,
{
    assert(byte_of_data1(spec_data1(byte)) == byte) by (bit_vector);
}

} // verus!
