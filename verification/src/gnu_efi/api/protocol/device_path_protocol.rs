//! Device paths: lists of nodes, each with a kind, a subkind and a
//! length, which end with a node of the kind "end".

use vstd::prelude::*;
use crate::elf::{le_u16, read_u16};
use crate::gnu_efi::api::protocol::Protocol;
use crate::gnu_efi::api::types::{device_path_guid, Guid};

verus! {

/// The bytes of the head of a node.
pub const NODE_BYTES: usize = 4;

/// Why a node is not of the kind that was asked for.
#[derive(Clone, Copy, PartialEq, Eq, Structural, Debug)]
pub enum Error {
    InvalidMainType,
    InvalidSubtype,
}

/// The kinds of node.
#[derive(Clone, Copy, PartialEq, Eq, Structural, Debug)]
pub enum DevicePathType {
    HardwareDevicePath,
    AcpiDevicePath,
    MessagingDevicePath,
    MediaDevice,
    BiosBootSpecificationDevicePath,
    EndOfHardwareDevicePath,
}

/// The kind of node that the number `value` stands for, if it stands
/// for one.
pub open spec fn device_path_type_of(value: u8) -> Option<DevicePathType> {
    if value == 0x01 {
        Some(DevicePathType::HardwareDevicePath)
    } else if value == 0x02 {
        Some(DevicePathType::AcpiDevicePath)
    } else if value == 0x03 {
        Some(DevicePathType::MessagingDevicePath)
    } else if value == 0x04 {
        Some(DevicePathType::MediaDevice)
    } else if value == 0x05 {
        Some(DevicePathType::BiosBootSpecificationDevicePath)
    } else if value == 0x7f {
        Some(DevicePathType::EndOfHardwareDevicePath)
    } else {
        None
    }
}

/// The kind of node that the number `value` stands for, if it stands
/// for one.
pub fn device_path_type(value: u8) -> (result: Option<DevicePathType>)
    ensures
        result == device_path_type_of(value),
{
    match value {
        0x01 => Some(DevicePathType::HardwareDevicePath),
        0x02 => Some(DevicePathType::AcpiDevicePath),
        0x03 => Some(DevicePathType::MessagingDevicePath),
        0x04 => Some(DevicePathType::MediaDevice),
        0x05 => Some(DevicePathType::BiosBootSpecificationDevicePath),
        0x7f => Some(DevicePathType::EndOfHardwareDevicePath),
        _ => None,
    }
}

/// The head of a node of a device path, and where in the path's bytes
/// the node starts.
#[derive(Clone, Copy, PartialEq, Eq, Structural, Debug)]
pub struct DevicePathProtocol {
    pub main_type: DevicePathType,
    pub subtype: u8,
    /// The bytes of the node, head included.
    pub length: u16,
    pub offset: usize,
}

impl Protocol for DevicePathProtocol {
    /// The name by which the firmware knows the protocol of device
    /// paths: 09576e91-6d3f-11d2-8e39-00a0c969723b.
    fn get_guid() -> (result: Guid)
        ensures
            result.data1 == 0x09576e91,
            result.data2 == 0x6d3f,
            result.data3 == 0x11d2,
            result.data4@ == seq![0x8eu8, 0x39, 0x00, 0xa0, 0xc9, 0x69, 0x72, 0x3b],
    {
        device_path_guid()
    }
}

/// The node that starts at `at` in `bytes`, if its kind is known.
pub open spec fn node_at(bytes: Seq<u8>, at: int) -> Option<DevicePathProtocol> {
    match device_path_type_of(bytes[at]) {
        Some(main_type) => Some(
            DevicePathProtocol {
                main_type,
                subtype: bytes[at + 1],
                length: le_u16(bytes, at + 2) as u16,
                offset: at as usize,
            },
        ),
        None => None,
    }
}

/// A walk over the nodes of a device path.
pub struct DevicePathIterator<'a> {
    bytes: &'a [u8],
    iter: usize,
}

impl<'a> DevicePathIterator<'a> {
    /// The bytes of the path.
    pub closed spec fn bytes(&self) -> Seq<u8> {
        self.bytes@
    }

    /// Where in the path the walk stands.
    pub closed spec fn position(&self) -> usize {
        self.iter
    }

    /// A walk over the path in `pointer`, from its first node on.
    pub fn new(pointer: &'a [u8]) -> (result: DevicePathIterator<'a>)
        ensures
            result.bytes() == pointer@,
            result.position() == 0,
    {
        DevicePathIterator { bytes: pointer, iter: 0 }
    }

    /// The node at which the walk stands, unless it is of the kind
    /// "end", of no known kind, or cut off by the end of the bytes. The
    /// walk moves on by the length that the node gives.
    pub fn next(&mut self) -> (result: Option<DevicePathProtocol>)
        ensures
            final(self).bytes() == old(self).bytes(),
            match result {
                Some(node) => {
                    &&& old(self).position() + NODE_BYTES <= old(self).bytes().len()
                    &&& node_at(old(self).bytes(), old(self).position() as int) == Some(node)
                    &&& node.main_type != DevicePathType::EndOfHardwareDevicePath
                    &&& final(self).position() == old(self).position() + node.length
                },
                None => {
                    &&& final(self).position() == old(self).position()
                    &&& (old(self).position() + NODE_BYTES > old(self).bytes().len() || old(
                        self,
                    ).position() + le_u16(old(self).bytes(), old(self).position() + 2)
                        > usize::MAX || match node_at(
                        old(self).bytes(),
                        old(self).position() as int,
                    ) {
                        Some(node) => node.main_type == DevicePathType::EndOfHardwareDevicePath,
                        None => true,
                    })
                },
            },
    {
        let total = self.bytes.len();
        if self.iter > total || total - self.iter < NODE_BYTES {
            return None;
        }
        let main_type = match device_path_type(self.bytes[self.iter]) {
            Some(main_type) => main_type,
            None => {
                return None;
            },
        };
        let node = DevicePathProtocol {
            main_type,
            subtype: self.bytes[self.iter + 1],
            length: read_u16(self.bytes, self.iter + 2),
            offset: self.iter,
        };
        if main_type == DevicePathType::EndOfHardwareDevicePath {
            return None;
        }
        if node.length as usize > usize::MAX - self.iter {
            return None;
        }
        self.iter = self.iter + node.length as usize;
        Some(node)
    }
}

/// The subkinds of a node of the kind "media device".
#[derive(Clone, Copy, PartialEq, Eq, Structural, Debug)]
pub enum MediaDevicePathType {
    HardDrive,
    CdRom,
    Vendor,
    Filepath,
    MediaProtocol,
    PwigFirmwareFile,
    PwigFirmwareVolume,
    RelativeOffsetRange,
    RamDisk,
}

/// The number of the subkind "file path".
pub const FILEPATH_SUBTYPE: u8 = 0x04;

/// A node that names a file by its path.
#[derive(Clone, PartialEq, Eq, Debug)]
pub struct FilepathDevicePath {
    pub main_type: DevicePathType,
    pub subtype: MediaDevicePathType,
    pub length: u16,
    /// The path, in units of 16 bits.
    pub path_name: Vec<u16>,
}

/// What `FilepathDevicePath::try_from` makes of a node: a file path
/// node with the same length, if the node is one.
pub open spec fn as_filepath(node: DevicePathProtocol) -> Result<(), Error> {
    if node.main_type == DevicePathType::MediaDevice {
        if node.subtype == FILEPATH_SUBTYPE {
            Ok(())
        } else {
            Err(Error::InvalidSubtype)
        }
    } else {
        Err(Error::InvalidMainType)
    }
}

impl FilepathDevicePath {
    /// The node `device_path` of the path `bytes` as a file path node:
    /// its path is what follows the node's head, two bytes to the unit,
    /// the low byte first. Fails if the node is of another kind or
    /// subkind.
    pub fn try_from(device_path: &DevicePathProtocol, bytes: &[u8]) -> (result: Result<
        FilepathDevicePath,
        Error,
    >)
        requires
            device_path.length >= NODE_BYTES,
            device_path.offset + device_path.length <= bytes@.len(),
        ensures
            match result {
                Ok(node) => {
                    &&& as_filepath(*device_path) is Ok
                    &&& node.main_type == DevicePathType::MediaDevice
                    &&& node.subtype == MediaDevicePathType::Filepath
                    &&& node.length == device_path.length
                    &&& node.path_name@.len() == (device_path.length - NODE_BYTES) / 2
                    &&& forall|i: int|
                        0 <= i < node.path_name@.len() ==> (#[trigger] node.path_name@[i])
                            == le_u16(bytes@, device_path.offset + NODE_BYTES + 2 * i)
                },
                Err(error) => as_filepath(*device_path) == Err::<(), Error>(error),
            },
    {
        if device_path.main_type == DevicePathType::MediaDevice {
            if device_path.subtype == FILEPATH_SUBTYPE {
                let total = bytes.len();
                let units: usize = (device_path.length as usize - NODE_BYTES) / 2;
                let start: usize = device_path.offset + NODE_BYTES;
                let mut path_name: Vec<u16> = Vec::new();
                let mut index: usize = 0;
                while index < units
                    invariant
                        index <= units,
                        units == (device_path.length - NODE_BYTES) / 2,
                        start == device_path.offset + NODE_BYTES,
                        device_path.length >= NODE_BYTES,
                        device_path.offset + device_path.length <= bytes@.len(),
                        total == bytes@.len(),
                        path_name@.len() == index,
                        forall|i: int|
                            0 <= i < index ==> (#[trigger] path_name@[i]) == le_u16(
                                bytes@,
                                start + 2 * i,
                            ),
                    decreases units - index,
                {
                    path_name.push(read_u16(bytes, start + 2 * index));
                    index += 1;
                }
                Ok(
                    FilepathDevicePath {
                        main_type: DevicePathType::MediaDevice,
                        subtype: MediaDevicePathType::Filepath,
                        length: device_path.length,
                        path_name,
                    },
                )
            } else {
                Err(Error::InvalidSubtype)
            }
        } else {
            Err(Error::InvalidMainType)
        }
    }
}

/// The subkinds of a node of the kind "end".
#[derive(Clone, Copy, PartialEq, Eq, Structural, Debug)]
pub enum DevicePathEndType {
    EndEntireDevicePath,
    EndDevicePathInstance,
}

/// The node that ends a device path or one instance of it.
#[derive(Clone, Copy, PartialEq, Eq, Structural, Debug)]
pub struct DevicePathEnd {
    pub main_type: DevicePathType,
    pub subtype: DevicePathEndType,
    pub length: u16,
}

/// What `DevicePathEnd::try_from` makes of a node.
pub open spec fn as_end(node: DevicePathProtocol) -> Result<DevicePathEnd, Error> {
    if node.main_type == DevicePathType::EndOfHardwareDevicePath {
        if node.subtype == 0xff {
            Ok(
                DevicePathEnd {
                    main_type: node.main_type,
                    subtype: DevicePathEndType::EndEntireDevicePath,
                    length: node.length,
                },
            )
        } else if node.subtype == 0x01 {
            Ok(
                DevicePathEnd {
                    main_type: node.main_type,
                    subtype: DevicePathEndType::EndDevicePathInstance,
                    length: node.length,
                },
            )
        } else {
            Err(Error::InvalidSubtype)
        }
    } else {
        Err(Error::InvalidMainType)
    }
}

impl DevicePathEnd {
    /// The node `device_path` as an end node. Fails if the node is of
    /// another kind, or of a subkind that no end node has.
    pub fn try_from(device_path: &DevicePathProtocol) -> (result: Result<DevicePathEnd, Error>)
        ensures
            result == as_end(*device_path),
    {
        if device_path.main_type == DevicePathType::EndOfHardwareDevicePath {
            if device_path.subtype == 0xff {
                Ok(
                    DevicePathEnd {
                        main_type: device_path.main_type,
                        subtype: DevicePathEndType::EndEntireDevicePath,
                        length: device_path.length,
                    },
                )
            } else if device_path.subtype == 0x01 {
                Ok(
                    DevicePathEnd {
                        main_type: device_path.main_type,
                        subtype: DevicePathEndType::EndDevicePathInstance,
                        length: device_path.length,
                    },
                )
            } else {
                Err(Error::InvalidSubtype)
            }
        } else {
            Err(Error::InvalidMainType)
        }
    }
}

} // verus!
