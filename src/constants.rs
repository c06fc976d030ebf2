use vstd::prelude::*;

verus! {

pub const UART_SERVICE_UUID: u128 = 0x6e40fff0_b5a3_f393_e0a9_e50e24dcca9e;

pub const CHARACTERISTIC_SERVICE_V2: u128 = 0xde5bf728_d711_4e47_af26_65e3012a5dc7;

pub const UART_RX_CHAR_UUID: u128 = 0x6e400002_b5a3_f393_e0a9_e50e24dcca9e;

pub const CHARACTERISTIC_COMMAND: u128 = 0xde5bf72a_d711_4e47_af26_65e3012a5dc7;

pub const UART_TX_CHAR_UUID: u128 = 0x6e400003_b5a3_f393_e0a9_e50e24dcca9e;

pub const CHARACTERISTIC_NOTIFY_V2: u128 = 0xde5bf729_d711_4e47_af26_65e3012a5dc7;

pub const DEVICE_INFO_UUID: u128 = 0x0000180a_0000_1000_8000_00805f9b34fb;

pub const DEVICE_HW_UUID: u128 = 0x00002a27_0000_1000_8000_00805f9b34fb;

pub const DEVICE_FW_UUID: u128 = 0x00002a26_0000_1000_8000_00805f9b34fb;

pub const CMD_SET_DATE_TIME: u8 = 0x01;

pub const CMD_BATTERY: u8 = 0x03;

pub const CMD_PHONE_NAME: u8 = 0x04;

pub const CMD_POWER_OFF: u8 = 0x08;

pub const CMD_BLINK: u8 = 0x10;

pub const CMD_PREFERENCES: u8 = 0x0a;

pub const CMD_SYNC_HEART_RATE: u8 = 0x15;

pub const CMD_AUTO_HR_PREF: u8 = 0x16;

pub const CMD_GOALS: u8 = 0x21;

pub const CMD_AUTO_SPO2_PREF: u8 = 0x2c;

pub const CMD_PACKET_SIZE: u8 = 0x2f;

pub const CMD_AUTO_STRESS_PREF: u8 = 0x36;

pub const CMD_SYNC_STRESS: u8 = 0x37;

pub const CMD_AUTO_HRV_PREF: u8 = 0x38;

pub const CMD_SYNC_HRV: u8 = 0x39;

pub const CMD_SYNC_ACTIVITY: u8 = 0x43;

pub const CMD_FIND_DEVICE: u8 = 0x50;

pub const CMD_MANUAL_HEART_RATE: u8 = 0x69;

pub const CMD_STOP_REAL_TIME: u8 = 0x6a;

pub const CMD_NOTIFICATION: u8 = 0x73;

pub const CMD_BIG_DATA_V2: u8 = 0xbc;

pub const CMD_FACTORY_RESET: u8 = 0xff;

pub const PREF_READ: u8 = 0x01;

pub const PREF_WRITE: u8 = 0x02;

pub const PREF_DELETE: u8 = 0x03;

pub const NOTIFICATION_NEW_HR_DATA: u8 = 0x01;

pub const NOTIFICATION_NEW_SPO2_DATA: u8 = 0x03;

pub const NOTIFICATION_NEW_STEPS_DATA: u8 = 0x04;

pub const NOTIFICATION_BATTERY_LEVEL: u8 = 0x0c;

pub const NOTIFICATION_LIVE_ACTIVITY: u8 = 0x12;

pub const BIG_DATA_TYPE_SLEEP: u8 = 0x27;

pub const BIG_DATA_TYPE_SPO2: u8 = 0x2a;

pub const SLEEP_TYPE_LIGHT: u8 = 0x02;

pub const SLEEP_TYPE_DEEP: u8 = 0x03;

pub const SLEEP_TYPE_REM: u8 = 0x04;

pub const SLEEP_TYPE_AWAKE: u8 = 0x05;

} // verus!
