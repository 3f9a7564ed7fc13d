//! The fixed runtime preamble emitted once per generation run.
//!
//! It carries the internal-error type with its fixed fault codes, the three
//! call status values, the positional-read result holder, the call status
//! block, the synchronous call driver, the raw-buffer wrapper whose
//! allocation entry points are named after the namespace, and the
//! variable-length lift and lower helpers.

use vstd::prelude::*;
use vstd::string::StringExecFns;

verus! {

pub const RUNTIME_HEAD: &'static str = r#"import "dart:async";
import "dart:convert";
import "dart:ffi";
import "dart:io" show Platform, File, Directory;
import "dart:isolate";
import "dart:typed_data";
import "package:ffi/ffi.dart";

class UniffiInternalError implements Exception {
    static const int bufferOverflow = 0;
    static const int incompleteData = 1;
    static const int unexpectedOptionalTag = 2;
    static const int unexpectedEnumCase = 3;
    static const int unexpectedNullPointer = 4;
    static const int unexpectedRustCallStatusCode = 5;
    static const int unexpectedRustCallError = 6;
    static const int unexpectedStaleHandle = 7;
    static const int rustPanic = 8;

    final int errorCode;
    final String? panicMessage;

    const UniffiInternalError(this.errorCode, this.panicMessage);

    static UniffiInternalError panicked(String message) {
        return UniffiInternalError(rustPanic, message);
    }

    @override
    String toString() {
        switch (errorCode) {
            case bufferOverflow:
                return "UniFfi::BufferOverflow";
            case incompleteData:
                return "UniFfi::IncompleteData";
            case unexpectedOptionalTag:
                return "UniFfi::UnexpectedOptionalTag";
            case unexpectedEnumCase:
                return "UniFfi::UnexpectedEnumCase";
            case unexpectedNullPointer:
                return "UniFfi::UnexpectedNullPointer";
            case unexpectedRustCallStatusCode:
                return "UniFfi::UnexpectedRustCallStatusCode";
            case unexpectedRustCallError:
                return "UniFfi::UnexpectedRustCallError";
            case unexpectedStaleHandle:
                return "UniFfi::UnexpectedStaleHandle";
            case rustPanic:
                return "UniFfi::rustPanic: $panicMessage";
            default:
                return "UniFfi::UnknownError: $errorCode";
        }
    }
}

const int CALL_SUCCESS = 0;
const int CALL_ERROR = 1;
const int CALL_PANIC = 2;

class LiftRetVal<T> {
    final T value;
    final int bytesRead;
    const LiftRetVal(this.value, this.bytesRead);

    LiftRetVal<T> copyWithOffset(int offset) {
        return LiftRetVal(value, bytesRead + offset);
    }
}

class RustCallStatus extends Struct {
    @Int8()
    external int code;
    external RustBuffer errorBuf;

    static Pointer<RustCallStatus> allocate({int count = 1}) =>
        calloc<RustCallStatus>(count * sizeOf<RustCallStatus>()).cast();
}

T noop<T>(T t) {
    return t;
}

T rustCall<T>(Api api, T Function(Pointer<RustCallStatus>) callback) {
    var callStatus = RustCallStatus.allocate();
    final returnValue = callback(callStatus);

    switch (callStatus.ref.code) {
        case CALL_SUCCESS:
            calloc.free(callStatus);
            return returnValue;
        case CALL_ERROR:
            throw callStatus.ref.errorBuf;
        case CALL_PANIC:
            if (callStatus.ref.errorBuf.len > 0) {
                final message = utf8.decoder.convert(callStatus.ref.errorBuf.asUint8List());
                calloc.free(callStatus);
                throw UniffiInternalError.panicked(message);
            } else {
                calloc.free(callStatus);
                throw UniffiInternalError.panicked("Rust panic");
            }
        default:
            throw UniffiInternalError(callStatus.ref.code, null);
    }
}

class RustBuffer extends Struct {
    @Uint64()
    external int capacity;

    @Uint64()
    external int len;

    external Pointer<Uint8> data;

    static RustBuffer fromBytes(Api api, ForeignBytes bytes) {
        final _fromBytesPtr = api._lookup<
            NativeFunction<
                RustBuffer Function(ForeignBytes, Pointer<RustCallStatus>)>>(""#;

pub const RUNTIME_ALLOC: &'static str = r#"");
        final _fromBytes =
            _fromBytesPtr.asFunction<RustBuffer Function(ForeignBytes, Pointer<RustCallStatus>)>();
        return rustCall(api, (res) => _fromBytes(bytes, res));
    }

    static RustBuffer allocate(Api api, int size) {
        final _allocatePtr = api._lookup<
            NativeFunction<
                RustBuffer Function(Int64, Pointer<RustCallStatus>)>>(""#;

pub const RUNTIME_FREE: &'static str = r#"");
        final _allocate = _allocatePtr.asFunction<RustBuffer Function(int, Pointer<RustCallStatus>)>();
        return rustCall(api, (res) => _allocate(size, res));
    }

    void deallocate(Api api) {
        final _freePtr = api._lookup<
            NativeFunction<
                Void Function(RustBuffer, Pointer<RustCallStatus>)>>(""#;

pub const RUNTIME_TAIL: &'static str = r#"");
        final _free = _freePtr.asFunction<void Function(RustBuffer, Pointer<RustCallStatus>)>();
        rustCall(api, (res) => _free(this, res));
    }

    Uint8List asUint8List() {
        return data.cast<Uint8>().asTypedList(len);
    }
}

RustBuffer toRustBuffer(Api api, Uint8List data) {
    final length = data.length;

    final Pointer<Uint8> frameData = calloc<Uint8>(length);
    final pointerList = frameData.asTypedList(length);
    pointerList.setAll(0, data);

    final bytes = calloc<ForeignBytes>();
    bytes.ref.len = length;
    bytes.ref.data = frameData;
    return RustBuffer.fromBytes(api, bytes.ref);
}

class ForeignBytes extends Struct {
    @Int32()
    external int len;

    external Pointer<Uint8> data;
}
"#;

pub const WRAPPER_LIFTERS: &'static str = r#"class DataOffset<T> {
    final T? data;
    final int offset;
    DataOffset(this.data, this.offset);
}

DataOffset<T> liftVariableLength<T>(
    Uint8List buf, T? Function(Uint8List) lifter,
    [int offset = 1]) {
    final length = buf.buffer.asByteData().getInt32(offset);
    final liftedData = lifter(buf.sublist(offset + 4));
    return DataOffset(liftedData, length);
}

List<T> liftSequence<T>(Api api, Uint8List buf, Function(Uint8List, [int offset]) lifter, [int element_byte_size = 1, int offset = 0]) {
    List<T> res = [];
    buf = buf.sublist(offset);
    final length = buf.buffer.asByteData().getInt32(0);
    buf = buf.sublist(4);

    final element_byte_size = (buf.length ~/ length);
    offset = 0;

    for (var i = 0; i < length; i++) {
        offset = element_byte_size * i;
        final item = lifter(buf, offset);
        res.add(item);
    }

    return res;
}
"#;

pub const WRAPPER_LOWERERS: &'static str = r#"Uint8List createUint8ListFromInt(int value) {
    int length = value.bitLength ~/ 8 + 1;

    if (length != 4 && length != 8) {
        length = (value < 0x100000000) ? 4 : 8;
    }

    Uint8List uint8List = Uint8List(length);

    for (int i = length - 1; i >= 0; i--) {
        uint8List[i] = value & 0xFF;
        value >>= 8;
    }

    return uint8List;
}

Uint8List lowerVariableLength<T>(Api api, T input, Uint8List Function(T) lowerer) {
    final lowered = lowerer(input);
    final length = createUint8ListFromInt(lowered.length);
    Uint8List res = Uint8List(lowered.length + length.length);
    res.setAll(0, length);
    res.setAll(length.length, lowered);
    return res;
}

Uint8List lowerSequence<T, V>(Api api, List<T> input, Uint8List Function(V) lowerer, int element_byte_size) {
    int capacity = input.length * element_byte_size;
    Uint8List items = Uint8List(capacity + 4);
    int offset = 0;

    items.setAll(offset, createUint8ListFromInt(capacity));
    offset += 4;

    for (var i = 0; i < input.length; i++) {
        items.setRange(
            offset, offset + element_byte_size, lowerer(input[i] as V));
        offset += element_byte_size;
    }

    return items;
}
"#;

/// The name of a raw-buffer entry point for a namespace.
pub open spec fn buffer_entry_of(ns: Seq<char>, step: Seq<char>) -> Seq<char> {
    "ffi_"@ + ns + "_rustbuffer_"@ + step
}

/// The whole runtime preamble for a namespace.
pub open spec fn preamble_text(ns: Seq<char>) -> Seq<char> {
    RUNTIME_HEAD@ + buffer_entry_of(ns, "from_bytes"@) + RUNTIME_ALLOC@ + buffer_entry_of(
        ns,
        "alloc"@,
    ) + RUNTIME_FREE@ + buffer_entry_of(ns, "free"@) + RUNTIME_TAIL@ + WRAPPER_LIFTERS@
        + WRAPPER_LOWERERS@
}

/// The variable-length lift helpers, emitted once per run.
pub fn generate_wrapper_lifters() -> (r: String)
    ensures
        r@ == WRAPPER_LIFTERS@,
{
    String::from_str(WRAPPER_LIFTERS)
}

/// The variable-length lower helpers, emitted once per run.
pub fn generate_wrapper_lowerers() -> (r: String)
    ensures
        r@ == WRAPPER_LOWERERS@,
{
    String::from_str(WRAPPER_LOWERERS)
}

/// One raw-buffer entry point name, as text.
fn buffer_entry(ns: &str, step: &str) -> (r: String)
    ensures
        r@ == buffer_entry_of(ns@, step@),
{
    let mut s = String::from_str("ffi_");
    s.append(ns);
    s.append("_rustbuffer_");
    s.append(step);
    s
}

/// The fixed runtime preamble for a namespace, as text.
pub fn runtime_preamble(ns: &str) -> (r: String)
    ensures
        r@ == preamble_text(ns@),
{
    let mut s = String::from_str(RUNTIME_HEAD);
    let from_bytes = buffer_entry(ns, "from_bytes");
    s.append(from_bytes.as_str());
    s.append(RUNTIME_ALLOC);
    let alloc = buffer_entry(ns, "alloc");
    s.append(alloc.as_str());
    s.append(RUNTIME_FREE);
    let free_name = buffer_entry(ns, "free");
    s.append(free_name.as_str());
    s.append(RUNTIME_TAIL);
    s.append(WRAPPER_LIFTERS);
    s.append(WRAPPER_LOWERERS);
    s
}

} // verus!
