use vstd::prelude::*;

verus! {

/// A script-side value as the host sees it at the boundary.
pub enum ScriptValue {
    NoneValue,
    Bool(bool),
    /// An integer that fits in an `i64`.
    Int(i64),
    /// An integer outside the range of an `i64`.
    LargeInt,
    Text(String),
    /// A list of integers.
    IntList(Vec<i64>),
    /// Any other script object.
    Other,
}

/// Why a script value could not become the native value asked for.
#[derive(Clone, Copy, PartialEq, Eq, Structural, Debug)]
pub enum MarshalError {
    /// The value is not of the expected kind.
    WrongType,
    /// An integer outside the target type's range; it is never truncated.
    OutOfRange,
    /// The record lacks the attribute that is looked up.
    MissingAttribute,
}

pub open spec fn int_fits(v: &ScriptValue, lo: int, hi: int) -> bool {
    v is Int && lo <= v->Int_0 <= hi
}

pub open spec fn int_error(v: &ScriptValue) -> MarshalError {
    if v is Int || v is LargeInt {
        MarshalError::OutOfRange
    } else {
        MarshalError::WrongType
    }
}

/// Converts a script integer to a `u16`, refusing any other value.
pub fn to_u16(v: &ScriptValue) -> (r: Result<u16, MarshalError>)
    ensures
        int_fits(v, 0, u16::MAX as int) ==> r == Ok::<u16, MarshalError>(v->Int_0 as u16),
        !int_fits(v, 0, u16::MAX as int) ==> r == Err::<u16, MarshalError>(int_error(v)),
{
    match v {
        ScriptValue::Int(i) => {
            if 0 <= *i && *i <= u16::MAX as i64 {
                Ok(*i as u16)
            } else {
                Err(MarshalError::OutOfRange)
            }
        },
        ScriptValue::LargeInt => Err(MarshalError::OutOfRange),
        _ => Err(MarshalError::WrongType),
    }
}

/// Converts a script integer to an `i32`, refusing any other value.
pub fn to_i32(v: &ScriptValue) -> (r: Result<i32, MarshalError>)
    ensures
        int_fits(v, i32::MIN as int, i32::MAX as int) ==> r == Ok::<i32, MarshalError>(
            v->Int_0 as i32,
        ),
        !int_fits(v, i32::MIN as int, i32::MAX as int) ==> r == Err::<i32, MarshalError>(
            int_error(v),
        ),
{
    match v {
        ScriptValue::Int(i) => {
            if i32::MIN as i64 <= *i && *i <= i32::MAX as i64 {
                Ok(*i as i32)
            } else {
                Err(MarshalError::OutOfRange)
            }
        },
        ScriptValue::LargeInt => Err(MarshalError::OutOfRange),
        _ => Err(MarshalError::WrongType),
    }
}

/// Converts a script text value to an owned string.
pub fn to_text(v: &ScriptValue) -> (r: Result<String, MarshalError>)
    ensures
        v is Text <==> r is Ok,
        r matches Ok(s) ==> s@ == v->Text_0@,
        !(v is Text) ==> r == Err::<String, MarshalError>(MarshalError::WrongType),
{
    match v {
        ScriptValue::Text(s) => Ok(s.clone()),
        _ => Err(MarshalError::WrongType),
    }
}

/// A script-side record, read by its `name` attribute alone.
pub struct PythonPerson {
    pub name: String,
}

impl PythonPerson {
    /// Builds the record from what looking up its `name` attribute gave:
    /// `None` when the attribute is absent. Only a text value is accepted.
    pub fn try_from_name_attribute(name: Option<ScriptValue>) -> (r: Result<
        PythonPerson,
        MarshalError,
    >)
        ensures
            name is None ==> r == Err::<PythonPerson, MarshalError>(MarshalError::MissingAttribute),
            name matches Some(v) ==> (r is Ok <==> v is Text),
            name matches Some(v) && !(v is Text) ==> r == Err::<PythonPerson, MarshalError>(
                MarshalError::WrongType,
            ),
            r matches Ok(p) ==> p.name@ == name->Some_0->Text_0@,
    {
        match name {
            None => Err(MarshalError::MissingAttribute),
            Some(ScriptValue::Text(s)) => Ok(PythonPerson { name: s }),
            Some(_) => Err(MarshalError::WrongType),
        }
    }
}

/// A native sequence of numbers.
pub struct NumVec(pub Vec<i32>);

impl NumVec {
    pub open spec fn view(&self) -> Seq<i32> {
        self.0@
    }

    /// Converts element by element into a script list.
    pub fn to_script_value(&self) -> (r: ScriptValue)
        ensures
            r is IntList,
            r->IntList_0@.len() == self@.len(),
            forall|i: int| 0 <= i < self@.len() ==> r->IntList_0@[i] == self@[i] as i64,
    {
        let mut out: Vec<i64> = Vec::new();
        let mut i: usize = 0;
        while i < self.0.len()
            invariant
                i <= self@.len(),
                out@.len() == i,
                forall|k: int| 0 <= k < i ==> out@[k] == self@[k] as i64,
            decreases self@.len() - i,
        {
            out.push(self.0[i] as i64);
            i = i + 1;
        }
        ScriptValue::IntList(out)
    }
}

impl Clone for NumVec {
    fn clone(&self) -> (r: NumVec)
        ensures
            r@ == self@,
    {
        NumVec(self.0.clone())
    }
}

/// A host object handed to the script as an opaque handle with one
/// read-only field.
pub struct RustStruct {
    numbers: NumVec,
}

impl RustStruct {
    pub closed spec fn view(&self) -> Seq<i32> {
        self.numbers@
    }

    /// A host object holding `numbers`.
    pub fn new(numbers: NumVec) -> (r: RustStruct)
        ensures
            r@ == numbers@,
    {
        RustStruct { numbers }
    }

    /// The read-only `numbers` field, as a copy.
    pub fn numbers(&self) -> (r: NumVec)
        ensures
            r@ == self@,
    {
        self.numbers.clone()
    }
}

/// The demonstration call: takes a number, a text and a record from the
/// script and returns a fresh host object holding `[1, 2, 3, 4]`; the host
/// only echoes the arguments.
pub fn rust_function(_num: i32, _text: &str, _person: &PythonPerson) -> (r: RustStruct)
    ensures
        r@ == seq![1i32, 2, 3, 4],
{
    let numbers = vec![1i32, 2, 3, 4];
    RustStruct::new(NumVec(numbers))
}

} // verus!
