//! Control function definitions.

use crate::message::data::u7::U7;
use vstd::prelude::*;

verus! {

/// Custom type for a control function.
#[derive(Debug, Clone, Copy, PartialEq, Eq, Hash, Structural)]
pub struct ControlFunction(pub U7);

/// Control function numbers as defined in the MIDI 1.0 Specification.
///
/// Each is a 7-bit number, so `U7::try_from` accepts it.
#[allow(missing_docs)]
impl ControlFunction {
    pub const BANK_SELECT_0: u8 = 0;
    pub const MOD_WHEEL_1: u8 = 1;
    pub const BREATH_CONTROLLER_2: u8 = 2;
    pub const UNDEFINED_3: u8 = 3;
    pub const FOOT_CONTROLLER_4: u8 = 4;
    pub const PORTAMENTO_TIME_5: u8 = 5;
    pub const DATA_ENTRY_MSB_6: u8 = 6;
    pub const CHANNEL_VOLUME_7: u8 = 7;
    pub const BALANCE_8: u8 = 8;
    pub const UNDEFINED_9: u8 = 9;
    pub const PAN_10: u8 = 10;
    pub const EXPRESSION_CONTROLLER_11: u8 = 11;
    pub const EFFECT_CONTROL_1_12: u8 = 12;
    pub const EFFECT_CONTROL_2_13: u8 = 13;
    pub const UNDEFINED_14: u8 = 14;
    pub const UNDEFINED_15: u8 = 15;
    pub const GENERAL_PURPOSE_CONTROLLER_1_16: u8 = 16;
    pub const GENERAL_PURPOSE_CONTROLLER_2_17: u8 = 17;
    pub const GENERAL_PURPOSE_CONTROLLER_3_18: u8 = 18;
    pub const GENERAL_PURPOSE_CONTROLLER_4_19: u8 = 19;
    pub const UNDEFINED_20: u8 = 20;
    pub const UNDEFINED_21: u8 = 21;
    pub const UNDEFINED_22: u8 = 22;
    pub const UNDEFINED_23: u8 = 23;
    pub const UNDEFINED_24: u8 = 24;
    pub const UNDEFINED_25: u8 = 25;
    pub const UNDEFINED_26: u8 = 26;
    pub const UNDEFINED_27: u8 = 27;
    pub const UNDEFINED_28: u8 = 28;
    pub const UNDEFINED_29: u8 = 29;
    pub const UNDEFINED_30: u8 = 30;
    pub const UNDEFINED_31: u8 = 31;
    pub const LSB_FOR_BANK_SELECT_32: u8 = 32;
    pub const LSB_FOR_MOD_WHEEL_33: u8 = 33;
    pub const LSB_FOR_BREATH_CONTROLLER_34: u8 = 34;
    pub const LSB_FOR_UNDEFINED_35: u8 = 35;
    pub const LSB_FOR_FOOT_CONTROLLER_36: u8 = 36;
    pub const LSB_FOR_PORTAMENTO_TIME_37: u8 = 37;
    pub const LSB_FOR_DATA_ENTRY_MSB_38: u8 = 38;
    pub const LSB_FOR_CHANNEL_VOLUME_39: u8 = 39;
    pub const LSB_FOR_BALANCE_40: u8 = 40;
    pub const LSB_FOR_UNDEFINED_41: u8 = 41;
    pub const LSB_FOR_PAN_42: u8 = 42;
    pub const LSB_FOR_EXPRESSION_CONTROLLER_43: u8 = 43;
    pub const LSB_FOR_EFFECT_CONTROL_1_44: u8 = 44;
    pub const LSB_FOR_EFFECT_CONTROL_2_45: u8 = 45;
    pub const LSB_FOR_UNDEFINED_14_46: u8 = 46;
    pub const LSB_FOR_UNDEFINED_15_47: u8 = 47;
    pub const LSB_FOR_GENERAL_PURPOSE_CONTROLLER_1_48: u8 = 48;
    pub const LSB_FOR_GENERAL_PURPOSE_CONTROLLER_2_49: u8 = 49;
    pub const LSB_FOR_GENERAL_PURPOSE_CONTROLLER_3_50: u8 = 50;
    pub const LSB_FOR_GENERAL_PURPOSE_CONTROLLER_4_51: u8 = 51;
    pub const LSB_FOR_UNDEFINED_20_52: u8 = 52;
    pub const LSB_FOR_UNDEFINED_21_53: u8 = 53;
    pub const LSB_FOR_UNDEFINED_22_54: u8 = 54;
    pub const LSB_FOR_UNDEFINED_23_55: u8 = 55;
    pub const LSB_FOR_UNDEFINED_24_56: u8 = 56;
    pub const LSB_FOR_UNDEFINED_25_57: u8 = 57;
    pub const LSB_FOR_UNDEFINED_26_58: u8 = 58;
    pub const LSB_FOR_UNDEFINED_27_59: u8 = 59;
    pub const LSB_FOR_UNDEFINED_28_60: u8 = 60;
    pub const LSB_FOR_UNDEFINED_29_61: u8 = 61;
    pub const LSB_FOR_UNDEFINED_30_62: u8 = 62;
    pub const LSB_FOR_UNDEFINED_31_63: u8 = 63;
    pub const DAMPER_PEDAL_ON_OFF_64: u8 = 64;
    pub const PORTAMENTO_ON_OFF_65: u8 = 65;
    pub const SOSTENUTO_ON_OFF_66: u8 = 66;
    pub const SOFT_PEDAL_ON_OFF_67: u8 = 67;
    pub const LEGATO_FOOTSWITCH_68: u8 = 68;
    pub const HOLD_2_69: u8 = 69;
    pub const SOUND_CONTROLLER_1_70: u8 = 70;
    pub const SOUND_CONTROLLER_2_71: u8 = 71;
    pub const SOUND_CONTROLLER_3_72: u8 = 72;
    pub const SOUND_CONTROLLER_4_73: u8 = 73;
    pub const SOUND_CONTROLLER_5_74: u8 = 74;
    pub const SOUND_CONTROLLER_6_75: u8 = 75;
    pub const SOUND_CONTROLLER_7_76: u8 = 76;
    pub const SOUND_CONTROLLER_8_77: u8 = 77;
    pub const SOUND_CONTROLLER_9_78: u8 = 78;
    pub const SOUND_CONTROLLER_10_79: u8 = 79;
    pub const GENERAL_PURPOSE_CONTROLLER_5_80: u8 = 80;
    pub const GENERAL_PURPOSE_CONTROLLER_6_81: u8 = 81;
    pub const GENERAL_PURPOSE_CONTROLLER_7_82: u8 = 82;
    pub const GENERAL_PURPOSE_CONTROLLER_8_83: u8 = 83;
    pub const PORTAMENTO_CONTROL_84: u8 = 84;
    pub const UNDEFINED_85: u8 = 85;
    pub const UNDEFINED_86: u8 = 86;
    pub const UNDEFINED_87: u8 = 87;
    pub const HIGH_RESOLUTION_VELOCITY_PREFIX_88: u8 = 88;
    pub const UNDEFINED_89: u8 = 89;
    pub const UNDEFINED_90: u8 = 90;
    pub const EFFECTS_1_DEPTH_91: u8 = 91;
    pub const EFFECTS_2_DEPTH_92: u8 = 92;
    pub const EFFECTS_3_DEPTH_93: u8 = 93;
    pub const EFFECTS_4_DEPTH_94: u8 = 94;
    pub const EFFECTS_5_DEPTH_95: u8 = 95;
    pub const DATA_INCREMENT_96: u8 = 96;
    pub const DATA_DECREMENT_97: u8 = 97;
    pub const NPRN_LSB_98: u8 = 98;
    pub const NPRN_MSB_99: u8 = 99;
    pub const RPN_LSB_100: u8 = 100;
    pub const UNDEFINED_101: u8 = 101;
    pub const UNDEFINED_102: u8 = 102;
    pub const UNDEFINED_103: u8 = 103;
    pub const UNDEFINED_104: u8 = 104;
    pub const UNDEFINED_105: u8 = 105;
    pub const UNDEFINED_106: u8 = 106;
    pub const UNDEFINED_107: u8 = 107;
    pub const UNDEFINED_108: u8 = 108;
    pub const UNDEFINED_109: u8 = 109;
    pub const UNDEFINED_110: u8 = 110;
    pub const UNDEFINED_111: u8 = 111;
    pub const UNDEFINED_112: u8 = 112;
    pub const UNDEFINED_113: u8 = 113;
    pub const UNDEFINED_114: u8 = 114;
    pub const UNDEFINED_115: u8 = 115;
    pub const UNDEFINED_116: u8 = 116;
    pub const UNDEFINED_117: u8 = 117;
    pub const UNDEFINED_118: u8 = 118;
    pub const UNDEFINED_119: u8 = 119;
    pub const ALL_SOUND_OFF_120: u8 = 120;
    pub const RESET_ALL_CONTROLLERS_121: u8 = 121;
    pub const LOCAL_CONTROL_OFF_122: u8 = 122;
    pub const ALL_NOTES_OFF_123: u8 = 123;
    pub const OMNI_MODE_OFF_124: u8 = 124;
    pub const OMNI_MODE_ON_125: u8 = 125;
    pub const MONO_MODE_ON_126: u8 = 126;
    pub const POLY_MODE_ON_127: u8 = 127;
}

} // verus!
