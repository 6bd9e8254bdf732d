//! Values, points and the requests built from them.
use vstd::prelude::*;

verus! {

/// The data type tag of a point.
#[derive(Clone, Copy, Debug, PartialEq, Eq, Structural)]
pub enum DataType {
    Boolean,
    Integer,
    Text,
}

/// Whether a point may be read, written, or both.
#[derive(Clone, Copy, Debug, PartialEq, Eq, Structural)]
pub enum AccessMode {
    ReadOnly,
    WriteOnly,
    ReadWrite,
}

impl DataType {
    /// The data type stored under `code`: 0 boolean, 1 integer, 2 text.
    pub fn from_code(code: i64) -> (r: Option<DataType>)
        ensures
            code == 0 <==> r == Some(DataType::Boolean),
            code == 1 <==> r == Some(DataType::Integer),
            code == 2 <==> r == Some(DataType::Text),
            r is None <==> !(0 <= code <= 2),
    {
        if code == 0 {
            Some(DataType::Boolean)
        } else if code == 1 {
            Some(DataType::Integer)
        } else if code == 2 {
            Some(DataType::Text)
        } else {
            None
        }
    }
}

impl AccessMode {
    /// The access mode stored under `code`: 0 read-only, 1 write-only, 2 read-write.
    pub fn from_code(code: i64) -> (r: Option<AccessMode>)
        ensures
            code == 0 <==> r == Some(AccessMode::ReadOnly),
            code == 1 <==> r == Some(AccessMode::WriteOnly),
            code == 2 <==> r == Some(AccessMode::ReadWrite),
            r is None <==> !(0 <= code <= 2),
    {
        if code == 0 {
            Some(AccessMode::ReadOnly)
        } else if code == 1 {
            Some(AccessMode::WriteOnly)
        } else if code == 2 {
            Some(AccessMode::ReadWrite)
        } else {
            None
        }
    }
}

/// A value on the wire, tagged by its type; `Null` stands for an absent value.
#[derive(Clone, Debug, PartialEq, Eq)]
pub enum Value {
    Null,
    Boolean(bool),
    Integer(i64),
    Text(String),
}

/// Whether a value's tag agrees with a declared data type. `Null` agrees with none.
pub open spec fn value_has_type(v: Value, t: DataType) -> bool {
    match v {
        Value::Null => false,
        Value::Boolean(_) => t == DataType::Boolean,
        Value::Integer(_) => t == DataType::Integer,
        Value::Text(_) => t == DataType::Text,
    }
}

impl Value {
    /// Checks the value's tag against a declared data type.
    pub fn has_type(&self, t: DataType) -> (r: bool)
        ensures
            r == value_has_type(*self, t),
    {
        match self {
            Value::Null => false,
            Value::Boolean(_) => t == DataType::Boolean,
            Value::Integer(_) => t == DataType::Integer,
            Value::Text(_) => t == DataType::Text,
        }
    }

    /// A copy of the value, equal to it.
    pub fn duplicate(&self) -> (r: Value)
        ensures
            r == *self,
    {
        match self {
            Value::Null => Value::Null,
            Value::Boolean(b) => Value::Boolean(*b),
            Value::Integer(i) => Value::Integer(*i),
            Value::Text(s) => Value::Text(s.clone()),
        }
    }
}

/// An addressable data point of a device. The address is interpreted by the
/// protocol driver only.
#[derive(Clone, Debug)]
pub struct Point {
    pub id: i64,
    pub device_id: i64,
    pub address: String,
    pub data_type: DataType,
    pub access_mode: AccessMode,
    pub multiplier: i64,
    pub precision: u32,
    pub description: String,
    pub part_number: Option<String>,
}

/// A field device together with its points.
#[derive(Clone, Debug)]
pub struct Device {
    pub id: i64,
    pub name: String,
    pub device_type: String,
    /// Structured data owned by the device type, kept as its serialized text.
    pub custom_data: String,
    pub protocol_name: String,
    pub points: Vec<Point>,
}

/// A point joined with the protocol name of its owning device.
#[derive(Clone, Debug)]
pub struct PointWithProtocolId {
    pub point_id: i64,
    pub device_id: i64,
    pub address: String,
    pub data_type: DataType,
    pub access_mode: AccessMode,
    pub multiplier: i64,
    pub precision: u32,
    pub description: String,
    pub part_number: Option<String>,
    pub protocol_name: String,
}

/// What a driver is asked to read.
#[derive(Clone, Debug)]
pub struct ReaderPointRequest {
    pub device_id: i64,
    pub point_id: i64,
    pub address: String,
    pub data_type: DataType,
    pub access_mode: AccessMode,
    pub multiplier: i64,
    pub precision: u32,
}

/// What a driver is asked to write: the point's addressing plus the value.
#[derive(Clone, Debug)]
pub struct WriterPointRequest {
    pub device_id: i64,
    pub point_id: i64,
    pub address: String,
    pub data_type: DataType,
    pub access_mode: AccessMode,
    pub multiplier: i64,
    pub precision: u32,
    pub value: Value,
}

fn copy_part_number(p: &Option<String>) -> (r: Option<String>)
    ensures
        r == *p,
{
    match p {
        Some(s) => Some(s.clone()),
        None => None,
    }
}

impl Point {
    /// Joins the point with the protocol name of its device.
    pub fn with_protocol(&self, protocol_name: String) -> (r: PointWithProtocolId)
        ensures
            r.point_id == self.id,
            r.device_id == self.device_id,
            r.address == self.address,
            r.data_type == self.data_type,
            r.access_mode == self.access_mode,
            r.multiplier == self.multiplier,
            r.precision == self.precision,
            r.description == self.description,
            r.part_number == self.part_number,
            r.protocol_name == protocol_name,
    {
        PointWithProtocolId {
            point_id: self.id,
            device_id: self.device_id,
            address: self.address.clone(),
            data_type: self.data_type,
            access_mode: self.access_mode,
            multiplier: self.multiplier,
            precision: self.precision,
            description: self.description.clone(),
            part_number: copy_part_number(&self.part_number),
            protocol_name,
        }
    }
}

impl ReaderPointRequest {
    /// Whether this request addresses exactly the given point.
    pub open spec fn addresses(self, p: PointWithProtocolId) -> bool {
        &&& self.device_id == p.device_id
        &&& self.point_id == p.point_id
        &&& self.address == p.address
        &&& self.data_type == p.data_type
        &&& self.access_mode == p.access_mode
        &&& self.multiplier == p.multiplier
        &&& self.precision == p.precision
    }
}

impl WriterPointRequest {
    /// Whether this request addresses exactly the given point and carries `v`.
    pub open spec fn addresses(self, p: PointWithProtocolId, v: Value) -> bool {
        &&& self.device_id == p.device_id
        &&& self.point_id == p.point_id
        &&& self.address == p.address
        &&& self.data_type == p.data_type
        &&& self.access_mode == p.access_mode
        &&& self.multiplier == p.multiplier
        &&& self.precision == p.precision
        &&& self.value == v
    }
}

impl PointWithProtocolId {
    /// Builds the read request for this point.
    pub fn reader_request(&self) -> (r: ReaderPointRequest)
        ensures
            r.addresses(*self),
    {
        ReaderPointRequest {
            device_id: self.device_id,
            point_id: self.point_id,
            address: self.address.clone(),
            data_type: self.data_type,
            access_mode: self.access_mode,
            multiplier: self.multiplier,
            precision: self.precision,
        }
    }

    /// Builds the write request for this point with `value` substituted in.
    pub fn writer_request(&self, value: Value) -> (r: WriterPointRequest)
        ensures
            r.addresses(*self, value),
    {
        WriterPointRequest {
            device_id: self.device_id,
            point_id: self.point_id,
            address: self.address.clone(),
            data_type: self.data_type,
            access_mode: self.access_mode,
            multiplier: self.multiplier,
            precision: self.precision,
            value,
        }
    }

    /// Whether the point may be written.
    pub fn is_writable(&self) -> (r: bool)
        ensures
            r == (self.access_mode != AccessMode::ReadOnly),
    {
        self.access_mode != AccessMode::ReadOnly
    }

    /// Whether the point may be read.
    pub fn is_readable(&self) -> (r: bool)
        ensures
            r == (self.access_mode != AccessMode::WriteOnly),
    {
        self.access_mode != AccessMode::WriteOnly
    }
}

} // verus!
