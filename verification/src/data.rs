// Copyright (c) 2020-2021, Richard M Neswold, Jr.
// All rights reserved.
//
// Redistribution and use in source and binary forms, with or without
// modification, are permitted provided that the following conditions are
// met:
//
// 1. Redistributions of source code must retain the above copyright
//    notice, this list of conditions and the following disclaimer.
//
// 2. Redistributions in binary form must reproduce the above copyright
//    notice, this list of conditions and the following disclaimer in the
//    documentation and/or other materials provided with the distribution.
//
// 3. Neither the name of the copyright holder nor the names of its
//    contributors may be used to endorse or promote products derived
//    from this software without specific prior written permission.
//
// THIS SOFTWARE IS PROVIDED BY THE COPYRIGHT HOLDERS AND CONTRIBUTORS
// "AS IS" AND ANY EXPRESS OR IMPLIED WARRANTIES, INCLUDING, BUT NOT
// LIMITED TO, THE IMPLIED WARRANTIES OF MERCHANTABILITY AND FITNESS FOR
// A PARTICULAR PURPOSE ARE DISCLAIMED. IN NO EVENT SHALL THE COPYRIGHT
// HOLDER OR CONTRIBUTORS BE LIABLE FOR ANY DIRECT, INDIRECT, INCIDENTAL,
// SPECIAL, EXEMPLARY, OR CONSEQUENTIAL DAMAGES (INCLUDING, BUT NOT
// LIMITED TO, PROCUREMENT OF SUBSTITUTE GOODS OR SERVICES; LOSS OF USE,
// DATA, OR PROFITS; OR BUSINESS INTERRUPTION) HOWEVER CAUSED AND ON ANY
// THEORY OF LIABILITY, WHETHER IN CONTRACT, STRICT LIABILITY, OR TORT
// (INCLUDING NEGLIGENCE OR OTHERWISE) ARISING IN ANY WAY OUT OF THE USE
// OF THIS SOFTWARE, EVEN IF ADVISED OF THE POSSIBILITY OF SUCH DAMAGE.

//! Scalar device values and the tagged bytes that keep them in the store.
//!
//! | value         | bytes                                                      |
//! |---------------|------------------------------------------------------------|
//! | `Nil`         | none                                                       |
//! | `Bool(false)` | `F`                                                        |
//! | `Bool(true)`  | `T`                                                        |
//! | `Int(v)`      | `I`, then `v` in eight bytes, big-endian two's complement  |
//! | `Flt(bits)`   | `D`, then the eight bytes of the double, big-endian        |
//! | `Str(s)`      | `S`, a four-byte big-endian length, then that much UTF-8   |
//!
//! A decoder looks only at the bytes a value needs: what follows them is
//! ignored.

use crate::endian::{
    be_bytes_u32, be_bytes_u64, bits_of_i64, get_u32, get_u64, i64_from_bits, i64_of_bits,
    i64_to_bits, lemma_i64_bits_back, lemma_i64_bits_round_trip, lemma_u32_be_bytes_back,
    lemma_u32_be_round_trip, lemma_u64_be_bytes_back, lemma_u64_be_round_trip, put_u32, put_u64,
    u32_of_be_bytes, u64_of_be_bytes,
};
use vstd::prelude::*;
use vstd::slice::{slice_subrange, slice_to_vec};
use vstd::utf8::{
    decode_utf8, decode_utf8_encode_utf8, encode_utf8, encode_utf8_decode_utf8,
    encode_utf8_valid_utf8, valid_utf8,
};

verus! {

/// The tag of `Bool(false)`: the letter `F`.
pub const TAG_FALSE: u8 = 0x46;

/// The tag of `Bool(true)`: the letter `T`.
pub const TAG_TRUE: u8 = 0x54;

/// The tag of an integer: the letter `I`.
pub const TAG_INT: u8 = 0x49;

/// The tag of a double: the letter `D`.
pub const TAG_FLT: u8 = 0x44;

/// The tag of a string: the letter `S`.
pub const TAG_STR: u8 = 0x53;

/// A value of one of the primitive types that a device can have.
///
/// A double is held as its 64 bits in IEEE 754 binary64 layout, so that every
/// double, each NaN included, is kept bit for bit.
#[derive(Clone, Debug, PartialEq, Eq)]
pub enum Type {
    Nil,
    Bool(bool),
    Int(i64),
    Flt(u64),
    Str(String),
}

/// What a [`Type`] holds, as mathematics sees it.
pub enum Scalar {
    Nil,
    Bool(bool),
    Int(i64),
    Flt(u64),
    Str(Seq<char>),
}

impl View for Type {
    type V = Scalar;

    open spec fn view(&self) -> Scalar {
        match *self {
            Type::Nil => Scalar::Nil,
            Type::Bool(b) => Scalar::Bool(b),
            Type::Int(v) => Scalar::Int(v),
            Type::Flt(bits) => Scalar::Flt(bits),
            Type::Str(s) => Scalar::Str(s@),
        }
    }
}

/// Why bytes, or what the store handed back, are not a [`Type`].
#[derive(Clone, Copy, Debug, PartialEq, Eq)]
pub enum DecodeError {
    /// What the store handed back is not a byte string.
    NotData,
    /// The first byte names no type.
    UnknownTag,
    /// Fewer than eight bytes follow the tag of an integer.
    ShortInt,
    /// Fewer than eight bytes follow the tag of a double.
    ShortFlt,
    /// The length field of a string is cut off, or fewer bytes follow it than
    /// it announces.
    ShortStr,
    /// The bytes of a string are not UTF-8.
    NotUtf8,
}

impl DecodeError {
    /// Whether the error says that bytes are missing.
    pub open spec fn is_length_error(self) -> bool {
        self == DecodeError::ShortInt || self == DecodeError::ShortFlt || self
            == DecodeError::ShortStr
    }

    /// Whether the error says that bytes are missing.
    pub fn is_short(&self) -> (b: bool)
        ensures
            b == self.is_length_error(),
    {
        match self {
            DecodeError::ShortInt | DecodeError::ShortFlt | DecodeError::ShortStr => true,
            _ => false,
        }
    }

    /// The text of each error.
    pub open spec fn text(self) -> Seq<char> {
        match self {
            DecodeError::NotData => "bad redis::Value"@,
            DecodeError::UnknownTag => "unknown tag"@,
            DecodeError::ShortInt => "integer data too short"@,
            DecodeError::ShortFlt => "floating point data too short"@,
            DecodeError::ShortStr => "string data too short"@,
            DecodeError::NotUtf8 => "string not UTF-8"@,
        }
    }

    /// The error in words.
    pub fn message(&self) -> (msg: &'static str)
        ensures
            msg@ == self.text(),
    {
        match self {
            DecodeError::NotData => "bad redis::Value",
            DecodeError::UnknownTag => "unknown tag",
            DecodeError::ShortInt => "integer data too short",
            DecodeError::ShortFlt => "floating point data too short",
            DecodeError::ShortStr => "string data too short",
            DecodeError::NotUtf8 => "string not UTF-8",
        }
    }
}

/// What the store hands back for a request.
#[derive(Debug, PartialEq, Eq)]
pub enum Value {
    /// Nothing is kept under the key.
    Nil,
    /// A number.
    Int(i64),
    /// A byte string: the only form that keeps a [`Type`].
    Data(Vec<u8>),
    /// Several values.
    Bulk(Vec<Value>),
    /// A status line.
    Status(String),
    /// The status `OK`.
    Okay,
}

/// The bytes that keep `v`.
///
/// The length field of a string has four bytes, so it holds the length of the
/// text modulo 2^32.
pub open spec fn encoding(v: Scalar) -> Seq<u8> {
    match v {
        Scalar::Nil => Seq::empty(),
        Scalar::Bool(false) => seq![TAG_FALSE],
        Scalar::Bool(true) => seq![TAG_TRUE],
        Scalar::Int(i) => seq![TAG_INT] + be_bytes_u64(bits_of_i64(i)),
        Scalar::Flt(bits) => seq![TAG_FLT] + be_bytes_u64(bits),
        Scalar::Str(s) => seq![TAG_STR] + be_bytes_u32(encode_utf8(s).len() as u32) + encode_utf8(
            s,
        ),
    }
}

/// Whether the encoding of `v` says all of `v`: the length of a string has to
/// fit its four-byte field.
pub open spec fn representable(v: Scalar) -> bool {
    v matches Scalar::Str(s) ==> encode_utf8(s).len() <= u32::MAX
}

/// The value that the bytes after the tag of an integer hold.
pub open spec fn decoded_integer(body: Seq<u8>) -> Result<Scalar, DecodeError> {
    if body.len() >= 8 {
        Ok(Scalar::Int(i64_of_bits(u64_of_be_bytes(body))))
    } else {
        Err(DecodeError::ShortInt)
    }
}

/// The value that the bytes after the tag of a double hold.
pub open spec fn decoded_float(body: Seq<u8>) -> Result<Scalar, DecodeError> {
    if body.len() >= 8 {
        Ok(Scalar::Flt(u64_of_be_bytes(body)))
    } else {
        Err(DecodeError::ShortFlt)
    }
}

/// The value that the bytes after the tag of a string hold.
pub open spec fn decoded_string(body: Seq<u8>) -> Result<Scalar, DecodeError> {
    if body.len() >= 4 && body.len() - 4 >= u32_of_be_bytes(body) {
        let text = body.subrange(4, 4 + u32_of_be_bytes(body));
        if valid_utf8(text) {
            Ok(Scalar::Str(decode_utf8(text)))
        } else {
            Err(DecodeError::NotUtf8)
        }
    } else {
        Err(DecodeError::ShortStr)
    }
}

/// The value that `buf` keeps, or why it keeps none.
pub open spec fn decoding(buf: Seq<u8>) -> Result<Scalar, DecodeError> {
    if buf.len() == 0 {
        Ok(Scalar::Nil)
    } else if buf[0] == TAG_FALSE {
        Ok(Scalar::Bool(false))
    } else if buf[0] == TAG_TRUE {
        Ok(Scalar::Bool(true))
    } else if buf[0] == TAG_INT {
        decoded_integer(buf.skip(1))
    } else if buf[0] == TAG_FLT {
        decoded_float(buf.skip(1))
    } else if buf[0] == TAG_STR {
        decoded_string(buf.skip(1))
    } else {
        Err(DecodeError::UnknownTag)
    }
}

/// What `r` says, with the value by its view.
pub open spec fn outcome(r: Result<Type, DecodeError>) -> Result<Scalar, DecodeError> {
    match r {
        Ok(t) => Ok(t@),
        Err(e) => Err(e),
    }
}

/// Decoding undoes encoding: the bytes of a value keep that value, whatever
/// the value, as long as its encoding says all of it.
pub proof fn lemma_decode_encode(v: Scalar)
    requires
        representable(v),
    ensures
        decoding(encoding(v)) == Ok::<Scalar, DecodeError>(v),
{
    let buf = encoding(v);
    match v {
        Scalar::Nil => {},
        Scalar::Bool(b) => {},
        Scalar::Int(i) => {
            lemma_u64_be_round_trip(bits_of_i64(i));
            lemma_i64_bits_round_trip(i);
            assert(buf.skip(1) =~= be_bytes_u64(bits_of_i64(i)));
        },
        Scalar::Flt(bits) => {
            lemma_u64_be_round_trip(bits);
            assert(buf.skip(1) =~= be_bytes_u64(bits));
        },
        Scalar::Str(s) => {
            let text = encode_utf8(s);
            let len = text.len() as u32;
            let body = buf.skip(1);
            lemma_u32_be_round_trip(len);
            assert(body =~= be_bytes_u32(len) + text);
            assert(u32_of_be_bytes(body) == u32_of_be_bytes(be_bytes_u32(len)));
            assert(body.subrange(4, 4 + len) =~= text);
            encode_utf8_valid_utf8(s);
            encode_utf8_decode_utf8(s);
        },
    }
}

/// Decoding makes nothing up: the value that bytes keep is spelled by the
/// front of them, byte for byte.
pub proof fn lemma_encode_decode(buf: Seq<u8>)
    requires
        decoding(buf) is Ok,
    ensures
        representable(decoding(buf)->Ok_0),
        encoding(decoding(buf)->Ok_0).len() <= buf.len(),
        encoding(decoding(buf)->Ok_0) == buf.subrange(
            0,
            encoding(decoding(buf)->Ok_0).len() as int,
        ),
{
    let v = decoding(buf)->Ok_0;
    let body = buf.skip(1);
    match v {
        Scalar::Nil => {
            assert(encoding(v) =~= buf.subrange(0, 0));
        },
        Scalar::Bool(b) => {
            assert(encoding(v) =~= buf.subrange(0, 1));
        },
        Scalar::Int(i) => {
            lemma_u64_be_bytes_back(body);
            lemma_i64_bits_back(u64_of_be_bytes(body));
            assert(encoding(v) =~= buf.subrange(0, 9));
        },
        Scalar::Flt(bits) => {
            lemma_u64_be_bytes_back(body);
            assert(encoding(v) =~= buf.subrange(0, 9));
        },
        Scalar::Str(s) => {
            let len = u32_of_be_bytes(body);
            let text = body.subrange(4, 4 + len);
            decode_utf8_encode_utf8(text);
            lemma_u32_be_bytes_back(body);
            assert(encoding(v) =~= buf.subrange(0, 5 + len));
        },
    }
}

/// Bytes that are cut short keep no value, and the error says so: after the
/// tag of an integer or of a double eight bytes must follow, and after the tag
/// of a string four bytes of length and then as many bytes as they announce.
pub proof fn lemma_short_buffer_rejected(buf: Seq<u8>)
    requires
        buf.len() >= 1,
        (buf[0] == TAG_INT || buf[0] == TAG_FLT) && buf.len() < 9 || buf[0] == TAG_STR && (
        buf.len() < 5 || buf.len() - 5 < u32_of_be_bytes(buf.skip(1))),
    ensures
        decoding(buf) is Err,
        decoding(buf)->Err_0.is_length_error(),
{
}

/// A value is decoded from the bytes it needs and from no others: bytes that
/// follow them change nothing.
pub proof fn lemma_decoding_ignores_rest(buf: Seq<u8>, rest: Seq<u8>)
    requires
        buf.len() >= 1,
        decoding(buf) is Ok,
    ensures
        decoding(buf + rest) == decoding(buf),
{
    let long = buf + rest;
    assert(long[0] == buf[0]);
    if buf[0] == TAG_INT || buf[0] == TAG_FLT {
        assert(forall|i: int| 0 <= i < 8 ==> long.skip(1)[i] == buf.skip(1)[i]);
    } else if buf[0] == TAG_STR {
        let body = buf.skip(1);
        assert(forall|i: int| 0 <= i < 4 ==> long.skip(1)[i] == body[i]);
        assert(long.skip(1).subrange(4, 4 + u32_of_be_bytes(body)) =~= body.subrange(
            4,
            4 + u32_of_be_bytes(body),
        ));
    }
}

/// The text that `bytes` spell in UTF-8, through `String::from_utf8` of the
/// standard library. It accepts exactly the byte strings that are well-formed
/// UTF-8, and the string it then gives holds the characters that they encode.
#[verifier::external_body]
fn string_from_utf8(bytes: Vec<u8>) -> (r: Option<String>)
    ensures
        r is Some <==> valid_utf8(bytes@),
        r matches Some(s) ==> s@ == decode_utf8(bytes@),
{
    match String::from_utf8(bytes) {
        Ok(s) => Some(s),
        Err(_) => None,
    }
}

impl Type {
    /// The bytes that keep this value.
    pub fn encode(&self) -> (out: Vec<u8>)
        ensures
            out@ == encoding(self@),
            representable(self@) ==> decoding(out@) == Ok::<Scalar, DecodeError>(self@),
    {
        let mut out: Vec<u8> = Vec::new();
        match self {
            Type::Nil => {},
            Type::Bool(false) => {
                out.push(TAG_FALSE);
            },
            Type::Bool(true) => {
                out.push(TAG_TRUE);
            },
            Type::Int(v) => {
                out.push(TAG_INT);
                put_u64(&mut out, i64_to_bits(*v));
            },
            Type::Flt(bits) => {
                out.push(TAG_FLT);
                put_u64(&mut out, *bits);
            },
            Type::Str(s) => {
                let text = s.as_str().as_bytes();
                out.push(TAG_STR);
                put_u32(&mut out, #[verifier::truncate] (text.len() as u32));
                out.extend_from_slice(text);
            },
        }
        assert(out@ =~= encoding(self@));
        proof {
            if representable(self@) {
                lemma_decode_encode(self@);
            }
        }
        out
    }

    /// The arguments that this value is to a store command: its bytes, as one
    /// argument.
    pub fn to_redis_args(&self) -> (args: Vec<Vec<u8>>)
        ensures
            args@.len() == 1,
            args@[0]@ == encoding(self@),
    {
        let mut args: Vec<Vec<u8>> = Vec::new();
        args.push(self.encode());
        args
    }
    /// Reads an integer from the bytes that follow its tag.
    fn decode_integer(buf: &[u8]) -> (r: Result<Type, DecodeError>)
        ensures
            outcome(r) == decoded_integer(buf@),
    {
        if buf.len() >= 8 {
            return Ok(Type::Int(i64_from_bits(get_u64(buf))));
        }
        Err(DecodeError::ShortInt)
    }

    /// Reads a double from the bytes that follow its tag.
    fn decode_float(buf: &[u8]) -> (r: Result<Type, DecodeError>)
        ensures
            outcome(r) == decoded_float(buf@),
    {
        if buf.len() >= 8 {
            return Ok(Type::Flt(get_u64(buf)));
        }
        Err(DecodeError::ShortFlt)
    }

    /// Reads a string from the bytes that follow its tag.
    fn decode_string(buf: &[u8]) -> (r: Result<Type, DecodeError>)
        ensures
            outcome(r) == decoded_string(buf@),
    {
        if buf.len() >= 4 {
            let len: u32 = get_u32(buf);
            if buf.len() - 4 >= len as usize {
                let text = slice_to_vec(slice_subrange(buf, 4, 4 + len as usize));
                return match string_from_utf8(text) {
                    Some(s) => Ok(Type::Str(s)),
                    None => Err(DecodeError::NotUtf8),
                };
            }
        }
        Err(DecodeError::ShortStr)
    }

    /// Reads the value that `buf` keeps.
    pub fn decode(buf: &[u8]) -> (r: Result<Type, DecodeError>)
        ensures
            outcome(r) == decoding(buf@),
    {
        if buf.len() > 0 {
            let body = slice_subrange(buf, 1, buf.len());
            let tag: u8 = buf[0];
            if tag == TAG_FALSE {
                Ok(Type::Bool(false))
            } else if tag == TAG_TRUE {
                Ok(Type::Bool(true))
            } else if tag == TAG_INT {
                Self::decode_integer(body)
            } else if tag == TAG_FLT {
                Self::decode_float(body)
            } else if tag == TAG_STR {
                Self::decode_string(body)
            } else {
                Err(DecodeError::UnknownTag)
            }
        } else {
            Ok(Type::Nil)
        }
    }

    /// Reads a value from what the store handed back: only a byte string
    /// keeps one.
    pub fn from_redis_value(v: &Value) -> (r: Result<Type, DecodeError>)
        ensures
            *v matches Value::Data(buf) ==> outcome(r) == decoding(buf@),
            !(*v is Data) ==> r matches Err(DecodeError::NotData),
    {
        match v {
            Value::Data(buf) => Self::decode(buf.as_slice()),
            _ => Err(DecodeError::NotData),
        }
    }
}

/// A native value that is a [`Type`] as it stands.
pub trait Compat: Sized {
    /// The scalar that the value is.
    spec fn scalar(self) -> Scalar;

    /// The value as a [`Type`].
    fn to_type(self) -> (t: Type)
        ensures
            t@ == self.scalar(),
    ;
}

impl Compat for bool {
    open spec fn scalar(self) -> Scalar {
        Scalar::Bool(self)
    }

    fn to_type(self) -> (t: Type)
        ensures
            t == Type::Bool(self),
    {
        Type::Bool(self)
    }
}

impl Compat for i64 {
    open spec fn scalar(self) -> Scalar {
        Scalar::Int(self)
    }

    fn to_type(self) -> (t: Type)
        ensures
            t == Type::Int(self),
    {
        Type::Int(self)
    }
}

impl Compat for String {
    open spec fn scalar(self) -> Scalar {
        Scalar::Str(self@)
    }

    fn to_type(self) -> (t: Type)
        ensures
            t == Type::Str(self),
    {
        Type::Str(self)
    }
}

} // verus!
