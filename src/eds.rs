//! Vendor-SDK (EDSDK) data types, codes and the abstract SDK interface.

use vstd::prelude::*;
use crate::error::CameraError;

verus! {

/// EDSDK error code.
pub type EdsError = u32;

/// EDSDK property identifier.
pub type EdsPropertyID = u32;

/// EDSDK state event code.
pub type EdsStateEvent = u32;

/// EDSDK camera command code.
pub type EdsCameraCommand = u32;

pub const EDS_ERR_OK: EdsError = 0x00000000;
pub const EDS_ERR_INTERNAL_ERROR: EdsError = 0x00000002;
pub const EDS_ERR_MEM_ALLOC_FAILED: EdsError = 0x00000003;
pub const EDS_ERR_DEVICE_BUSY: EdsError = 0x00000081;
pub const EDS_ERR_SESSION_NOT_OPEN: EdsError = 0x00002003;
pub const EDS_ERR_OBJECT_NOTREADY: EdsError = 0x0000A104;
pub const EDS_ERR_PROPERTIES_UNAVAILABLE: EdsError = 0x00008D03;
pub const EDS_ERR_TAKE_PICTURE_AF_NG: EdsError = 0x00008D01;
pub const EDS_ERR_COMM_DISCONNECTED: EdsError = 0x000000C1;
pub const EDS_ERR_INVALID_HANDLE: EdsError = 0x00000061;

pub const PROP_ID_ISO_SPEED: EdsPropertyID = 0x00000402;
pub const PROP_ID_AV: EdsPropertyID = 0x00000405;
pub const PROP_ID_TV: EdsPropertyID = 0x00000404;
pub const PROP_ID_EXPOSURE_COMPENSATION: EdsPropertyID = 0x00000406;
pub const PROP_ID_WHITE_BALANCE: EdsPropertyID = 0x00000403;
pub const PROP_ID_BATTERY_LEVEL: EdsPropertyID = 0x00000006;

pub const CAMERA_COMMAND_EVF_MODE: EdsCameraCommand = 0x00000002;
pub const CAMERA_COMMAND_TAKE_PICTURE: EdsCameraCommand = 0x00000000;
pub const CAMERA_COMMAND_PRESS_SHUTTER: EdsCameraCommand = 0x00000004;

pub const STATE_EVENT_SHUTDOWN: EdsStateEvent = 0x00000001;

/// Opaque handle to a camera known to the SDK.
#[derive(Debug, Clone, Copy, PartialEq, Eq, Structural, Hash)]
pub struct CameraHandle(pub usize);

/// Device information as the SDK reports it: NUL-terminated byte strings.
#[derive(Debug, Clone)]
pub struct EdsDeviceInfo {
    pub device_description: [u8; 256],
    pub body_id_ex: [u8; 256],
    pub reserved1: u32,
    pub reserved2: u32,
}

/// Legal values of a property.
#[derive(Debug, Clone)]
pub struct EdsPropertyDesc {
    pub num_elements: usize,
    pub prop_desc: Vec<i32>,
}

/// The text that `String::from_utf8_lossy` makes of `bytes`.
pub uninterp spec fn utf8_lossy_of(bytes: Seq<u8>) -> Seq<char>;

/// Relies on `String::from_utf8_lossy`: valid UTF-8 is decoded, each
/// invalid sequence becomes U+FFFD, so only empty input gives empty text.
#[verifier::external_body]
fn decode_lossy(bytes: &[u8]) -> (r: String)
    ensures
        r@ == utf8_lossy_of(bytes@),
        (r@.len() == 0) == (bytes@.len() == 0),
{
    String::from_utf8_lossy(bytes).into_owned()
}

/// The bytes before the first NUL, or all of them.
pub open spec fn until_nul(buf: Seq<u8>) -> Seq<u8>
    decreases buf.len(),
{
    if buf.len() == 0 {
        Seq::empty()
    } else if buf[0] == 0 {
        Seq::empty()
    } else {
        seq![buf[0]] + until_nul(buf.drop_first())
    }
}

proof fn lemma_until_nul_step(buf: Seq<u8>, i: int)
    requires
        0 <= i < buf.len(),
        forall|j: int| 0 <= j < i ==> buf[j] != 0,
    ensures
        buf[i] == 0 ==> until_nul(buf) == buf.subrange(0, i),
        buf[i] != 0 ==> forall|j: int| 0 <= j <= i ==> buf[j] != 0,
    decreases i,
{
    if i > 0 {
        lemma_until_nul_step(buf.drop_first(), i - 1);
        assert(buf.drop_first().subrange(0, i - 1) =~= buf.subrange(1, i));
        assert(seq![buf[0]] + buf.subrange(1, i) =~= buf.subrange(0, i));
    } else {
        assert(buf.subrange(0, 0) =~= Seq::<u8>::empty());
    }
}

proof fn lemma_until_nul_none(buf: Seq<u8>)
    requires
        forall|j: int| 0 <= j < buf.len() ==> buf[j] != 0,
    ensures
        until_nul(buf) == buf,
    decreases buf.len(),
{
    if buf.len() > 0 {
        lemma_until_nul_none(buf.drop_first());
        assert(seq![buf[0]] + buf.drop_first() =~= buf);
    }
}

/// Reads a NUL-terminated string out of a byte buffer.
pub fn read_c_string(buf: &[u8]) -> (r: String)
    ensures
        r@ == utf8_lossy_of(until_nul(buf@)),
        (r@.len() == 0) == (until_nul(buf@).len() == 0),
{
    let mut end: usize = 0;
    while end < buf.len() && buf[end] != 0
        invariant
            end <= buf@.len(),
            forall|j: int| 0 <= j < end ==> buf@[j] != 0,
        decreases buf@.len() - end,
    {
        end += 1;
    }
    proof {
        if end < buf@.len() {
            lemma_until_nul_step(buf@, end as int);
        } else {
            lemma_until_nul_none(buf@);
            assert(buf@.subrange(0, end as int) =~= buf@);
        }
    }
    let mut bytes: Vec<u8> = Vec::new();
    let mut i: usize = 0;
    while i < end
        invariant
            i <= end,
            end <= buf@.len(),
            bytes@ == buf@.subrange(0, i as int),
        decreases end - i,
    {
        bytes.push(buf[i]);
        proof {
            assert(bytes@ =~= buf@.subrange(0, i + 1));
        }
        i += 1;
    }
    decode_lossy(bytes.as_slice())
}

impl EdsDeviceInfo {
    /// The camera model.
    pub fn model_name(&self) -> (r: String)
        ensures
            r@ == utf8_lossy_of(until_nul(self.device_description@)),
    {
        read_c_string(self.device_description.as_slice())
    }

    /// The body serial number, if the camera reports one.
    pub fn serial_number(&self) -> (r: Option<String>)
        ensures
            until_nul(self.body_id_ex@).len() == 0 ==> r is None,
            until_nul(self.body_id_ex@).len() > 0 ==> r is Some && r->0@ == utf8_lossy_of(
                until_nul(self.body_id_ex@),
            ),
    {
        let s = read_c_string(self.body_id_ex.as_slice());
        if s.as_str().unicode_len() == 0 {
            None
        } else {
            Some(s)
        }
    }
}

/// Human-readable description of an EDSDK error code.
pub open spec fn error_text(code: EdsError) -> Seq<char> {
    if code == EDS_ERR_OK {
        "success"@
    } else if code == EDS_ERR_INTERNAL_ERROR {
        "EDSDK internal error"@
    } else if code == EDS_ERR_MEM_ALLOC_FAILED {
        "memory allocation failed"@
    } else if code == EDS_ERR_DEVICE_BUSY {
        "camera is busy — retry shortly"@
    } else if code == EDS_ERR_SESSION_NOT_OPEN {
        "no camera session is open"@
    } else if code == EDS_ERR_OBJECT_NOTREADY {
        "live view data not ready yet"@
    } else if code == EDS_ERR_PROPERTIES_UNAVAILABLE {
        "property not available on this camera"@
    } else if code == EDS_ERR_TAKE_PICTURE_AF_NG {
        "autofocus failed during capture"@
    } else if code == EDS_ERR_COMM_DISCONNECTED {
        "camera disconnected"@
    } else if code == EDS_ERR_INVALID_HANDLE {
        "invalid camera handle"@
    } else {
        "unknown EDSDK error"@
    }
}

/// Human-readable description of an EDSDK error code.
pub fn error_description(code: EdsError) -> (r: &'static str)
    ensures
        r@ == error_text(code),
{
    if code == EDS_ERR_OK {
        "success"
    } else if code == EDS_ERR_INTERNAL_ERROR {
        "EDSDK internal error"
    } else if code == EDS_ERR_MEM_ALLOC_FAILED {
        "memory allocation failed"
    } else if code == EDS_ERR_DEVICE_BUSY {
        "camera is busy — retry shortly"
    } else if code == EDS_ERR_SESSION_NOT_OPEN {
        "no camera session is open"
    } else if code == EDS_ERR_OBJECT_NOTREADY {
        "live view data not ready yet"
    } else if code == EDS_ERR_PROPERTIES_UNAVAILABLE {
        "property not available on this camera"
    } else if code == EDS_ERR_TAKE_PICTURE_AF_NG {
        "autofocus failed during capture"
    } else if code == EDS_ERR_COMM_DISCONNECTED {
        "camera disconnected"
    } else if code == EDS_ERR_INVALID_HANDLE {
        "invalid camera handle"
    } else {
        "unknown EDSDK error"
    }
}

/// The operations of the vendor SDK that the backend uses. Implemented by the
/// real SDK binding and by the in-memory mock.
pub trait EdsSdkApi {
    fn camera_list(&mut self) -> Result<Vec<CameraHandle>, CameraError>;

    fn open_session(&mut self, camera: CameraHandle) -> Result<(), CameraError>;

    fn close_session(&mut self, camera: CameraHandle) -> Result<(), CameraError>;

    fn get_device_info(&mut self, camera: CameraHandle) -> Result<EdsDeviceInfo, CameraError>;

    fn start_live_view(&mut self, camera: CameraHandle) -> Result<(), CameraError>;

    fn stop_live_view(&mut self, camera: CameraHandle) -> Result<(), CameraError>;

    fn download_evf_image(&mut self, camera: CameraHandle) -> Result<Vec<u8>, CameraError>;

    fn get_property(&mut self, camera: CameraHandle, prop: EdsPropertyID) -> Result<i32, CameraError>;

    fn set_property(&mut self, camera: CameraHandle, prop: EdsPropertyID, value: i32) -> Result<(), CameraError>;

    fn get_property_desc(&mut self, camera: CameraHandle, prop: EdsPropertyID) -> Result<EdsPropertyDesc, CameraError>;

    fn get_event(&mut self) -> Result<(), CameraError>;
}

} // verus!
