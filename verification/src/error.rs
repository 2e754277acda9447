//! Failures of the platform layer.
use crate::text::join2;
use vstd::prelude::*;

verus! {

/// A failure of the platform layer, over a representation of text.
#[derive(Debug, PartialEq, Eq)]
pub enum Failure<T> {
    /// The worker thread is gone.
    WorkerUnavailable,
    /// The worker did not answer in time.
    OperationTimedOut,
    /// Resources of an earlier connection could not be released.
    BleCleanup(T),
    /// A GATT operation was answered with a failure status.
    Gatt(T),
    /// The remote does not offer the voice service, or more than one.
    VoiceServiceMissing,
    /// The voice service lacks the named characteristic, or has more than one.
    VoiceCharacteristicMissing(T),
    /// A Windows API call failed.
    WindowsApi(T),
    /// A command has no encoding in the negotiated protocol version.
    Protocol(T),
}

/// A failure of the platform layer.
pub type PlatformError = Failure<String>;

/// A failure of the platform layer, with texts as character sequences.
pub type FailureModel = Failure<Seq<char>>;

impl View for Failure<String> {
    type V = Failure<Seq<char>>;

    open spec fn view(&self) -> Failure<Seq<char>> {
        match self {
            Failure::WorkerUnavailable => Failure::WorkerUnavailable,
            Failure::OperationTimedOut => Failure::OperationTimedOut,
            Failure::BleCleanup(text) => Failure::BleCleanup(text@),
            Failure::Gatt(text) => Failure::Gatt(text@),
            Failure::VoiceServiceMissing => Failure::VoiceServiceMissing,
            Failure::VoiceCharacteristicMissing(label) => Failure::VoiceCharacteristicMissing(
                label@,
            ),
            Failure::WindowsApi(text) => Failure::WindowsApi(text@),
            Failure::Protocol(text) => Failure::Protocol(text@),
        }
    }
}

/// The message shown for a failure.
pub open spec fn failure_text(error: FailureModel) -> Seq<char> {
    match error {
        Failure::WorkerUnavailable => "BLE 工作线程不可用"@,
        Failure::OperationTimedOut => "BLE 操作超时"@,
        Failure::BleCleanup(text) => text,
        Failure::Gatt(text) => text,
        Failure::VoiceServiceMissing => "未找到 ATVV 语音服务"@,
        Failure::VoiceCharacteristicMissing(label) => "未找到 ATVV 特征："@ + label,
        Failure::WindowsApi(text) => text,
        Failure::Protocol(text) => text,
    }
}

impl Failure<String> {
    /// The message shown for a failure.
    pub fn text(&self) -> (text: String)
        ensures
            text@ == failure_text(self@),
    {
        match self {
            Failure::WorkerUnavailable => "BLE 工作线程不可用".to_owned(),
            Failure::OperationTimedOut => "BLE 操作超时".to_owned(),
            Failure::BleCleanup(text) => text.clone(),
            Failure::Gatt(text) => text.clone(),
            Failure::VoiceServiceMissing => "未找到 ATVV 语音服务".to_owned(),
            Failure::VoiceCharacteristicMissing(label) => join2(
                "未找到 ATVV 特征：",
                label.as_str(),
            ),
            Failure::WindowsApi(text) => text.clone(),
            Failure::Protocol(text) => text.clone(),
        }
    }
}

/// A failure with a text of its own shows that text; the others say what they are, and a
/// missing characteristic is named.
pub proof fn failures_are_shown(text: Seq<char>)
    ensures
        failure_text(Failure::BleCleanup(text)) == text,
        failure_text(Failure::Gatt(text)) == text,
        failure_text(Failure::WindowsApi(text)) == text,
        failure_text(Failure::Protocol(text)) == text,
        failure_text(Failure::VoiceCharacteristicMissing(text)) == "未找到 ATVV 特征："@ + text,
        failure_text(Failure::VoiceServiceMissing) == "未找到 ATVV 语音服务"@,
        failure_text(Failure::OperationTimedOut) == "BLE 操作超时"@,
        failure_text(Failure::WorkerUnavailable) == "BLE 工作线程不可用"@,
{
}

} // verus!
