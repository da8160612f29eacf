//! The enumerations that libasound takes and returns, with the C integer that
//! stands for each variant.

use vstd::prelude::*;

verus! {

/// Stream mode of a PCM.
#[derive(Clone, Copy, Debug, PartialEq, Eq, Structural)]
pub enum SndPcmMode {
    /// Blocking mode
    Block,
    /// Non blocking mode
    Nonblock,
    /// Async notification (deprecated)
    Async,
}

impl SndPcmMode {
    /// The C integer that libasound uses for this value.
    pub open spec fn spec_code(self) -> i32 {
        match self {
            SndPcmMode::Block => 0i32,
            SndPcmMode::Nonblock => 1i32,
            SndPcmMode::Async => 2i32,
        }
    }

    /// The value that libasound means by the C integer `code`, if any.
    pub open spec fn spec_from_code(code: i32) -> Option<SndPcmMode> {
        if code == 0i32 {
            Some(SndPcmMode::Block)
        } else if code == 1i32 {
            Some(SndPcmMode::Nonblock)
        } else if code == 2i32 {
            Some(SndPcmMode::Async)
        } else {
            None
        }
    }

    /// The C integer that libasound uses for this value.
    pub fn code(self) -> (c: i32)
        ensures
            c == self.spec_code(),
    {
        match self {
            SndPcmMode::Block => 0i32,
            SndPcmMode::Nonblock => 1i32,
            SndPcmMode::Async => 2i32,
        }
    }

    /// Decode a C integer returned by libasound; `None` where no variant has it.
    pub fn from_code(code: i32) -> (r: Option<SndPcmMode>)
        ensures
            r == Self::spec_from_code(code),
    {
        if code == 0i32 {
            Some(SndPcmMode::Block)
        } else if code == 1i32 {
            Some(SndPcmMode::Nonblock)
        } else if code == 2i32 {
            Some(SndPcmMode::Async)
        } else {
            None
        }
    }

    /// Decoding the code of a value gives the value back.
    pub proof fn lemma_code_round_trip(self)
        ensures
            Self::spec_from_code(self.spec_code()) == Some(self),
    {
    }

    /// A code decodes only to the value that has it.
    pub proof fn lemma_decode_inverse(code: i32)
        ensures
            Self::spec_from_code(code) matches Some(v) ==> v.spec_code() == code,
            Self::spec_from_code(code) is None ==> forall|v: Self| v.spec_code() != code,
    {
    }

}

/// PCM stream (direction).
#[derive(Clone, Copy, Debug, PartialEq, Eq, Structural)]
pub enum SndPcmStream {
    /// Playback stream
    Playback,
    /// Capture stream
    Capture,
}

impl SndPcmStream {
    /// The C integer that libasound uses for this value.
    pub open spec fn spec_code(self) -> i32 {
        match self {
            SndPcmStream::Playback => 0i32,
            SndPcmStream::Capture => 1i32,
        }
    }

    /// The value that libasound means by the C integer `code`, if any.
    pub open spec fn spec_from_code(code: i32) -> Option<SndPcmStream> {
        if code == 0i32 {
            Some(SndPcmStream::Playback)
        } else if code == 1i32 {
            Some(SndPcmStream::Capture)
        } else {
            None
        }
    }

    /// The C integer that libasound uses for this value.
    pub fn code(self) -> (c: i32)
        ensures
            c == self.spec_code(),
    {
        match self {
            SndPcmStream::Playback => 0i32,
            SndPcmStream::Capture => 1i32,
        }
    }

    /// Decode a C integer returned by libasound; `None` where no variant has it.
    pub fn from_code(code: i32) -> (r: Option<SndPcmStream>)
        ensures
            r == Self::spec_from_code(code),
    {
        if code == 0i32 {
            Some(SndPcmStream::Playback)
        } else if code == 1i32 {
            Some(SndPcmStream::Capture)
        } else {
            None
        }
    }

    /// Decoding the code of a value gives the value back.
    pub proof fn lemma_code_round_trip(self)
        ensures
            Self::spec_from_code(self.spec_code()) == Some(self),
    {
    }

    /// A code decodes only to the value that has it.
    pub proof fn lemma_decode_inverse(code: i32)
        ensures
            Self::spec_from_code(code) matches Some(v) ==> v.spec_code() == code,
            Self::spec_from_code(code) is None ==> forall|v: Self| v.spec_code() != code,
    {
    }

}

/// PCM access type.
#[derive(Clone, Copy, Debug, PartialEq, Eq, Structural)]
pub enum SndPcmAccess {
    /// mmap access with simple interleaved channels
    MmapInterleaved,
    /// mmap access with simple non interleaved channels
    MmapNoninterleaved,
    /// mmap access with complex placement
    MmapComplex,
    /// snd_pcm_readi/snd_pcm_writei access
    RwInterleaved,
    /// snd_pcm_readn/snd_pcm_writen access
    RwNoninterleaved,
}

impl SndPcmAccess {
    /// The C integer that libasound uses for this value.
    pub open spec fn spec_code(self) -> i32 {
        match self {
            SndPcmAccess::MmapInterleaved => 0i32,
            SndPcmAccess::MmapNoninterleaved => 1i32,
            SndPcmAccess::MmapComplex => 2i32,
            SndPcmAccess::RwInterleaved => 3i32,
            SndPcmAccess::RwNoninterleaved => 4i32,
        }
    }

    /// The value that libasound means by the C integer `code`, if any.
    pub open spec fn spec_from_code(code: i32) -> Option<SndPcmAccess> {
        if code == 0i32 {
            Some(SndPcmAccess::MmapInterleaved)
        } else if code == 1i32 {
            Some(SndPcmAccess::MmapNoninterleaved)
        } else if code == 2i32 {
            Some(SndPcmAccess::MmapComplex)
        } else if code == 3i32 {
            Some(SndPcmAccess::RwInterleaved)
        } else if code == 4i32 {
            Some(SndPcmAccess::RwNoninterleaved)
        } else {
            None
        }
    }

    /// The C integer that libasound uses for this value.
    pub fn code(self) -> (c: i32)
        ensures
            c == self.spec_code(),
    {
        match self {
            SndPcmAccess::MmapInterleaved => 0i32,
            SndPcmAccess::MmapNoninterleaved => 1i32,
            SndPcmAccess::MmapComplex => 2i32,
            SndPcmAccess::RwInterleaved => 3i32,
            SndPcmAccess::RwNoninterleaved => 4i32,
        }
    }

    /// Decode a C integer returned by libasound; `None` where no variant has it.
    pub fn from_code(code: i32) -> (r: Option<SndPcmAccess>)
        ensures
            r == Self::spec_from_code(code),
    {
        if code == 0i32 {
            Some(SndPcmAccess::MmapInterleaved)
        } else if code == 1i32 {
            Some(SndPcmAccess::MmapNoninterleaved)
        } else if code == 2i32 {
            Some(SndPcmAccess::MmapComplex)
        } else if code == 3i32 {
            Some(SndPcmAccess::RwInterleaved)
        } else if code == 4i32 {
            Some(SndPcmAccess::RwNoninterleaved)
        } else {
            None
        }
    }

    /// Decoding the code of a value gives the value back.
    pub proof fn lemma_code_round_trip(self)
        ensures
            Self::spec_from_code(self.spec_code()) == Some(self),
    {
    }

    /// A code decodes only to the value that has it.
    pub proof fn lemma_decode_inverse(code: i32)
        ensures
            Self::spec_from_code(code) matches Some(v) ==> v.spec_code() == code,
            Self::spec_from_code(code) is None ==> forall|v: Self| v.spec_code() != code,
    {
    }

}

/// PCM sample format.
#[derive(Clone, Copy, Debug, PartialEq, Eq, Structural)]
pub enum SndPcmFormat {
    /// Unknown
    Unknown,
    /// Signed 8 bit
    S8,
    /// Unsigned 8 bit
    U8,
    /// Signed 16 bit Little Endian (a.k.a `S16` in C API)
    S16Le,
    /// Signed 16 bit Big Endian
    S16Be,
    /// Unsigned 16 bit Little Endian (a.k.a `U16` in C API)
    U16Le,
    /// Unsigned 16 bit Big Endian
    U16Be,
    /// Signed 24 bit Little Endian using low three bytes in 32-bit word (a.k.a `S24` in C API)
    S24Le,
    /// Signed 24 bit Big Endian using low three bytes in 32-bit word
    S24Be,
    /// Unsigned 24 bit Little Endian using low three bytes in 32-bit word (a.k.a `U24` in C API)
    U24Le,
    /// Unsigned 24 bit Big Endian using low three bytes in 32-bit word
    U24Be,
    /// Signed 32 bit Little Endian (a.k.a `S32` in C API)
    S32Le,
    /// Signed 32 bit Big Endian
    S32Be,
    /// Unsigned 32 bit Little Endian (a.k.a `U32` in C API)
    U32Le,
    /// Unsigned 32 bit Big Endian
    U32Be,
    /// Float 32 bit Little Endian, Range -1.0 to 1.0 (a.k.a `FLOAT` in C API)
    FloatLe,
    /// Float 32 bit Big Endian, Range -1.0 to 1.0
    FloatBe,
    /// Float 64 bit Little Endian, Range -1.0 to 1.0 (a.k.a `FLOAT64` in C API)
    Float64Le,
    /// Float 64 bit Big Endian, Range -1.0 to 1.0
    Float64Be,
    /// IEC-958 Little Endian (a.k.a `IEC958_SUBFRAME` in C API)
    Iec958SubframeLe,
    /// IEC-958 Big Endian
    Iec958SubframeBe,
    /// Mu-Law
    MuLaw,
    /// A-Law
    ALaw,
    /// Ima-ADPCM
    ImaAdpcm,
    /// MPEG
    Mpeg,
    /// GSM
    Gsm,
    /// Signed 20bit Little/Native Endian in 4bytes format, LSB justified (a.k.a `S20` in C API)
    S20Le,
    /// Signed 20bit Big Endian in 4bytes format, LSB justified
    S20Be,
    /// Unsigned 20bit Little/Native Endian in 4bytes format, LSB justified (a.k.a `U20` in C API)
    U20Le,
    /// Unsigned 20bit Big Endian in 4bytes format, LSB justified
    U20Be,
    /// Special
    Special,
    /// Signed 24bit Little Endian in 3bytes format
    S243le,
    /// Signed 24bit Big Endian in 3bytes format
    S243be,
    /// Unsigned 24bit Little Endian in 3bytes format
    U243le,
    /// Unsigned 24bit Big Endian in 3bytes format
    U243be,
    /// Signed 20bit Little Endian in 3bytes format
    S203le,
    /// Signed 20bit Big Endian in 3bytes format
    S203be,
    /// Unsigned 20bit Little Endian in 3bytes format
    U203le,
    /// Unsigned 20bit Big Endian in 3bytes format
    U203be,
    /// Signed 18bit Little Endian in 3bytes format
    S183le,
    /// Signed 18bit Big Endian in 3bytes format
    S183be,
    /// Unsigned 18bit Little Endian in 3bytes format
    U183le,
    /// Unsigned 18bit Big Endian in 3bytes format
    U183be,
    /// G.723 ADPCM 24 kbit/s in 8-bit samples
    G72324,
    /// G.723 ADPCM 24 kbit/s in 1-byte samples
    G723241b,
    /// G.723 ADPCM 40 kbit/s in 8-bit samples
    G72340,
    /// G.723 ADPCM 40 kbit/s in 1-byte samples
    G723401b,
    /// Direct Stream Digital, 1-byte samples
    DsdU8,
    /// Direct Stream Digital, 2-byte samples, little endian
    DsdU16Le,
    /// Direct Stream Digital, 4-byte samples, little endian
    DsdU32Le,
    /// Direct Stream Digital, 2-byte samples, big endian
    DsdU16Be,
    /// Direct Stream Digital, 4-byte samples, big endian
    DsdU32Be,
}

impl SndPcmFormat {
    /// The C integer that libasound uses for this value.
    pub open spec fn spec_code(self) -> i32 {
        match self {
            SndPcmFormat::Unknown => -1i32,
            SndPcmFormat::S8 => 0i32,
            SndPcmFormat::U8 => 1i32,
            SndPcmFormat::S16Le => 2i32,
            SndPcmFormat::S16Be => 3i32,
            SndPcmFormat::U16Le => 4i32,
            SndPcmFormat::U16Be => 5i32,
            SndPcmFormat::S24Le => 6i32,
            SndPcmFormat::S24Be => 7i32,
            SndPcmFormat::U24Le => 8i32,
            SndPcmFormat::U24Be => 9i32,
            SndPcmFormat::S32Le => 10i32,
            SndPcmFormat::S32Be => 11i32,
            SndPcmFormat::U32Le => 12i32,
            SndPcmFormat::U32Be => 13i32,
            SndPcmFormat::FloatLe => 14i32,
            SndPcmFormat::FloatBe => 15i32,
            SndPcmFormat::Float64Le => 16i32,
            SndPcmFormat::Float64Be => 17i32,
            SndPcmFormat::Iec958SubframeLe => 18i32,
            SndPcmFormat::Iec958SubframeBe => 19i32,
            SndPcmFormat::MuLaw => 20i32,
            SndPcmFormat::ALaw => 21i32,
            SndPcmFormat::ImaAdpcm => 22i32,
            SndPcmFormat::Mpeg => 23i32,
            SndPcmFormat::Gsm => 24i32,
            SndPcmFormat::S20Le => 25i32,
            SndPcmFormat::S20Be => 26i32,
            SndPcmFormat::U20Le => 27i32,
            SndPcmFormat::U20Be => 28i32,
            SndPcmFormat::Special => 31i32,
            SndPcmFormat::S243le => 32i32,
            SndPcmFormat::S243be => 33i32,
            SndPcmFormat::U243le => 34i32,
            SndPcmFormat::U243be => 35i32,
            SndPcmFormat::S203le => 36i32,
            SndPcmFormat::S203be => 37i32,
            SndPcmFormat::U203le => 38i32,
            SndPcmFormat::U203be => 39i32,
            SndPcmFormat::S183le => 40i32,
            SndPcmFormat::S183be => 41i32,
            SndPcmFormat::U183le => 42i32,
            SndPcmFormat::U183be => 43i32,
            SndPcmFormat::G72324 => 44i32,
            SndPcmFormat::G723241b => 45i32,
            SndPcmFormat::G72340 => 46i32,
            SndPcmFormat::G723401b => 47i32,
            SndPcmFormat::DsdU8 => 48i32,
            SndPcmFormat::DsdU16Le => 49i32,
            SndPcmFormat::DsdU32Le => 50i32,
            SndPcmFormat::DsdU16Be => 51i32,
            SndPcmFormat::DsdU32Be => 52i32,
        }
    }

    /// The value that libasound means by the C integer `code`, if any.
    pub open spec fn spec_from_code(code: i32) -> Option<SndPcmFormat> {
        if code == -1i32 {
            Some(SndPcmFormat::Unknown)
        } else if code == 0i32 {
            Some(SndPcmFormat::S8)
        } else if code == 1i32 {
            Some(SndPcmFormat::U8)
        } else if code == 2i32 {
            Some(SndPcmFormat::S16Le)
        } else if code == 3i32 {
            Some(SndPcmFormat::S16Be)
        } else if code == 4i32 {
            Some(SndPcmFormat::U16Le)
        } else if code == 5i32 {
            Some(SndPcmFormat::U16Be)
        } else if code == 6i32 {
            Some(SndPcmFormat::S24Le)
        } else if code == 7i32 {
            Some(SndPcmFormat::S24Be)
        } else if code == 8i32 {
            Some(SndPcmFormat::U24Le)
        } else if code == 9i32 {
            Some(SndPcmFormat::U24Be)
        } else if code == 10i32 {
            Some(SndPcmFormat::S32Le)
        } else if code == 11i32 {
            Some(SndPcmFormat::S32Be)
        } else if code == 12i32 {
            Some(SndPcmFormat::U32Le)
        } else if code == 13i32 {
            Some(SndPcmFormat::U32Be)
        } else if code == 14i32 {
            Some(SndPcmFormat::FloatLe)
        } else if code == 15i32 {
            Some(SndPcmFormat::FloatBe)
        } else if code == 16i32 {
            Some(SndPcmFormat::Float64Le)
        } else if code == 17i32 {
            Some(SndPcmFormat::Float64Be)
        } else if code == 18i32 {
            Some(SndPcmFormat::Iec958SubframeLe)
        } else if code == 19i32 {
            Some(SndPcmFormat::Iec958SubframeBe)
        } else if code == 20i32 {
            Some(SndPcmFormat::MuLaw)
        } else if code == 21i32 {
            Some(SndPcmFormat::ALaw)
        } else if code == 22i32 {
            Some(SndPcmFormat::ImaAdpcm)
        } else if code == 23i32 {
            Some(SndPcmFormat::Mpeg)
        } else if code == 24i32 {
            Some(SndPcmFormat::Gsm)
        } else if code == 25i32 {
            Some(SndPcmFormat::S20Le)
        } else if code == 26i32 {
            Some(SndPcmFormat::S20Be)
        } else if code == 27i32 {
            Some(SndPcmFormat::U20Le)
        } else if code == 28i32 {
            Some(SndPcmFormat::U20Be)
        } else if code == 31i32 {
            Some(SndPcmFormat::Special)
        } else if code == 32i32 {
            Some(SndPcmFormat::S243le)
        } else if code == 33i32 {
            Some(SndPcmFormat::S243be)
        } else if code == 34i32 {
            Some(SndPcmFormat::U243le)
        } else if code == 35i32 {
            Some(SndPcmFormat::U243be)
        } else if code == 36i32 {
            Some(SndPcmFormat::S203le)
        } else if code == 37i32 {
            Some(SndPcmFormat::S203be)
        } else if code == 38i32 {
            Some(SndPcmFormat::U203le)
        } else if code == 39i32 {
            Some(SndPcmFormat::U203be)
        } else if code == 40i32 {
            Some(SndPcmFormat::S183le)
        } else if code == 41i32 {
            Some(SndPcmFormat::S183be)
        } else if code == 42i32 {
            Some(SndPcmFormat::U183le)
        } else if code == 43i32 {
            Some(SndPcmFormat::U183be)
        } else if code == 44i32 {
            Some(SndPcmFormat::G72324)
        } else if code == 45i32 {
            Some(SndPcmFormat::G723241b)
        } else if code == 46i32 {
            Some(SndPcmFormat::G72340)
        } else if code == 47i32 {
            Some(SndPcmFormat::G723401b)
        } else if code == 48i32 {
            Some(SndPcmFormat::DsdU8)
        } else if code == 49i32 {
            Some(SndPcmFormat::DsdU16Le)
        } else if code == 50i32 {
            Some(SndPcmFormat::DsdU32Le)
        } else if code == 51i32 {
            Some(SndPcmFormat::DsdU16Be)
        } else if code == 52i32 {
            Some(SndPcmFormat::DsdU32Be)
        } else {
            None
        }
    }

    /// The C integer that libasound uses for this value.
    pub fn code(self) -> (c: i32)
        ensures
            c == self.spec_code(),
    {
        match self {
            SndPcmFormat::Unknown => -1i32,
            SndPcmFormat::S8 => 0i32,
            SndPcmFormat::U8 => 1i32,
            SndPcmFormat::S16Le => 2i32,
            SndPcmFormat::S16Be => 3i32,
            SndPcmFormat::U16Le => 4i32,
            SndPcmFormat::U16Be => 5i32,
            SndPcmFormat::S24Le => 6i32,
            SndPcmFormat::S24Be => 7i32,
            SndPcmFormat::U24Le => 8i32,
            SndPcmFormat::U24Be => 9i32,
            SndPcmFormat::S32Le => 10i32,
            SndPcmFormat::S32Be => 11i32,
            SndPcmFormat::U32Le => 12i32,
            SndPcmFormat::U32Be => 13i32,
            SndPcmFormat::FloatLe => 14i32,
            SndPcmFormat::FloatBe => 15i32,
            SndPcmFormat::Float64Le => 16i32,
            SndPcmFormat::Float64Be => 17i32,
            SndPcmFormat::Iec958SubframeLe => 18i32,
            SndPcmFormat::Iec958SubframeBe => 19i32,
            SndPcmFormat::MuLaw => 20i32,
            SndPcmFormat::ALaw => 21i32,
            SndPcmFormat::ImaAdpcm => 22i32,
            SndPcmFormat::Mpeg => 23i32,
            SndPcmFormat::Gsm => 24i32,
            SndPcmFormat::S20Le => 25i32,
            SndPcmFormat::S20Be => 26i32,
            SndPcmFormat::U20Le => 27i32,
            SndPcmFormat::U20Be => 28i32,
            SndPcmFormat::Special => 31i32,
            SndPcmFormat::S243le => 32i32,
            SndPcmFormat::S243be => 33i32,
            SndPcmFormat::U243le => 34i32,
            SndPcmFormat::U243be => 35i32,
            SndPcmFormat::S203le => 36i32,
            SndPcmFormat::S203be => 37i32,
            SndPcmFormat::U203le => 38i32,
            SndPcmFormat::U203be => 39i32,
            SndPcmFormat::S183le => 40i32,
            SndPcmFormat::S183be => 41i32,
            SndPcmFormat::U183le => 42i32,
            SndPcmFormat::U183be => 43i32,
            SndPcmFormat::G72324 => 44i32,
            SndPcmFormat::G723241b => 45i32,
            SndPcmFormat::G72340 => 46i32,
            SndPcmFormat::G723401b => 47i32,
            SndPcmFormat::DsdU8 => 48i32,
            SndPcmFormat::DsdU16Le => 49i32,
            SndPcmFormat::DsdU32Le => 50i32,
            SndPcmFormat::DsdU16Be => 51i32,
            SndPcmFormat::DsdU32Be => 52i32,
        }
    }

    /// Decode a C integer returned by libasound; `None` where no variant has it.
    pub fn from_code(code: i32) -> (r: Option<SndPcmFormat>)
        ensures
            r == Self::spec_from_code(code),
    {
        if code == -1i32 {
            Some(SndPcmFormat::Unknown)
        } else if code == 0i32 {
            Some(SndPcmFormat::S8)
        } else if code == 1i32 {
            Some(SndPcmFormat::U8)
        } else if code == 2i32 {
            Some(SndPcmFormat::S16Le)
        } else if code == 3i32 {
            Some(SndPcmFormat::S16Be)
        } else if code == 4i32 {
            Some(SndPcmFormat::U16Le)
        } else if code == 5i32 {
            Some(SndPcmFormat::U16Be)
        } else if code == 6i32 {
            Some(SndPcmFormat::S24Le)
        } else if code == 7i32 {
            Some(SndPcmFormat::S24Be)
        } else if code == 8i32 {
            Some(SndPcmFormat::U24Le)
        } else if code == 9i32 {
            Some(SndPcmFormat::U24Be)
        } else if code == 10i32 {
            Some(SndPcmFormat::S32Le)
        } else if code == 11i32 {
            Some(SndPcmFormat::S32Be)
        } else if code == 12i32 {
            Some(SndPcmFormat::U32Le)
        } else if code == 13i32 {
            Some(SndPcmFormat::U32Be)
        } else if code == 14i32 {
            Some(SndPcmFormat::FloatLe)
        } else if code == 15i32 {
            Some(SndPcmFormat::FloatBe)
        } else if code == 16i32 {
            Some(SndPcmFormat::Float64Le)
        } else if code == 17i32 {
            Some(SndPcmFormat::Float64Be)
        } else if code == 18i32 {
            Some(SndPcmFormat::Iec958SubframeLe)
        } else if code == 19i32 {
            Some(SndPcmFormat::Iec958SubframeBe)
        } else if code == 20i32 {
            Some(SndPcmFormat::MuLaw)
        } else if code == 21i32 {
            Some(SndPcmFormat::ALaw)
        } else if code == 22i32 {
            Some(SndPcmFormat::ImaAdpcm)
        } else if code == 23i32 {
            Some(SndPcmFormat::Mpeg)
        } else if code == 24i32 {
            Some(SndPcmFormat::Gsm)
        } else if code == 25i32 {
            Some(SndPcmFormat::S20Le)
        } else if code == 26i32 {
            Some(SndPcmFormat::S20Be)
        } else if code == 27i32 {
            Some(SndPcmFormat::U20Le)
        } else if code == 28i32 {
            Some(SndPcmFormat::U20Be)
        } else if code == 31i32 {
            Some(SndPcmFormat::Special)
        } else if code == 32i32 {
            Some(SndPcmFormat::S243le)
        } else if code == 33i32 {
            Some(SndPcmFormat::S243be)
        } else if code == 34i32 {
            Some(SndPcmFormat::U243le)
        } else if code == 35i32 {
            Some(SndPcmFormat::U243be)
        } else if code == 36i32 {
            Some(SndPcmFormat::S203le)
        } else if code == 37i32 {
            Some(SndPcmFormat::S203be)
        } else if code == 38i32 {
            Some(SndPcmFormat::U203le)
        } else if code == 39i32 {
            Some(SndPcmFormat::U203be)
        } else if code == 40i32 {
            Some(SndPcmFormat::S183le)
        } else if code == 41i32 {
            Some(SndPcmFormat::S183be)
        } else if code == 42i32 {
            Some(SndPcmFormat::U183le)
        } else if code == 43i32 {
            Some(SndPcmFormat::U183be)
        } else if code == 44i32 {
            Some(SndPcmFormat::G72324)
        } else if code == 45i32 {
            Some(SndPcmFormat::G723241b)
        } else if code == 46i32 {
            Some(SndPcmFormat::G72340)
        } else if code == 47i32 {
            Some(SndPcmFormat::G723401b)
        } else if code == 48i32 {
            Some(SndPcmFormat::DsdU8)
        } else if code == 49i32 {
            Some(SndPcmFormat::DsdU16Le)
        } else if code == 50i32 {
            Some(SndPcmFormat::DsdU32Le)
        } else if code == 51i32 {
            Some(SndPcmFormat::DsdU16Be)
        } else if code == 52i32 {
            Some(SndPcmFormat::DsdU32Be)
        } else {
            None
        }
    }

    /// Decoding the code of a value gives the value back.
    pub proof fn lemma_code_round_trip(self)
        ensures
            Self::spec_from_code(self.spec_code()) == Some(self),
    {
    }

    /// A code decodes only to the value that has it.
    pub proof fn lemma_decode_inverse(code: i32)
        ensures
            Self::spec_from_code(code) matches Some(v) ==> v.spec_code() == code,
            Self::spec_from_code(code) is None ==> forall|v: Self| v.spec_code() != code,
    {
    }

}

/// PCM state.
#[derive(Clone, Copy, Debug, PartialEq, Eq, Structural)]
pub enum SndPcmState {
    /// Open
    Open,
    /// Setup installed
    Setup,
    /// Ready to start
    Prepared,
    /// Running
    Running,
    /// Stopped: underrun (playback) or overrun (capture) detected
    Xrun,
    /// Draining: running (playback) or stopped (capture)
    Draining,
    /// Paused
    Paused,
    /// Hardware is suspended
    Suspended,
    /// Hardware is disconnected (also known as LAST in the C API)
    Disconnected,
}

impl SndPcmState {
    /// The C integer that libasound uses for this value.
    pub open spec fn spec_code(self) -> i32 {
        match self {
            SndPcmState::Open => 0i32,
            SndPcmState::Setup => 1i32,
            SndPcmState::Prepared => 2i32,
            SndPcmState::Running => 3i32,
            SndPcmState::Xrun => 4i32,
            SndPcmState::Draining => 5i32,
            SndPcmState::Paused => 6i32,
            SndPcmState::Suspended => 7i32,
            SndPcmState::Disconnected => 8i32,
        }
    }

    /// The value that libasound means by the C integer `code`, if any.
    pub open spec fn spec_from_code(code: i32) -> Option<SndPcmState> {
        if code == 0i32 {
            Some(SndPcmState::Open)
        } else if code == 1i32 {
            Some(SndPcmState::Setup)
        } else if code == 2i32 {
            Some(SndPcmState::Prepared)
        } else if code == 3i32 {
            Some(SndPcmState::Running)
        } else if code == 4i32 {
            Some(SndPcmState::Xrun)
        } else if code == 5i32 {
            Some(SndPcmState::Draining)
        } else if code == 6i32 {
            Some(SndPcmState::Paused)
        } else if code == 7i32 {
            Some(SndPcmState::Suspended)
        } else if code == 8i32 {
            Some(SndPcmState::Disconnected)
        } else {
            None
        }
    }

    /// The C integer that libasound uses for this value.
    pub fn code(self) -> (c: i32)
        ensures
            c == self.spec_code(),
    {
        match self {
            SndPcmState::Open => 0i32,
            SndPcmState::Setup => 1i32,
            SndPcmState::Prepared => 2i32,
            SndPcmState::Running => 3i32,
            SndPcmState::Xrun => 4i32,
            SndPcmState::Draining => 5i32,
            SndPcmState::Paused => 6i32,
            SndPcmState::Suspended => 7i32,
            SndPcmState::Disconnected => 8i32,
        }
    }

    /// Decode a C integer returned by libasound; `None` where no variant has it.
    pub fn from_code(code: i32) -> (r: Option<SndPcmState>)
        ensures
            r == Self::spec_from_code(code),
    {
        if code == 0i32 {
            Some(SndPcmState::Open)
        } else if code == 1i32 {
            Some(SndPcmState::Setup)
        } else if code == 2i32 {
            Some(SndPcmState::Prepared)
        } else if code == 3i32 {
            Some(SndPcmState::Running)
        } else if code == 4i32 {
            Some(SndPcmState::Xrun)
        } else if code == 5i32 {
            Some(SndPcmState::Draining)
        } else if code == 6i32 {
            Some(SndPcmState::Paused)
        } else if code == 7i32 {
            Some(SndPcmState::Suspended)
        } else if code == 8i32 {
            Some(SndPcmState::Disconnected)
        } else {
            None
        }
    }

    /// Decoding the code of a value gives the value back.
    pub proof fn lemma_code_round_trip(self)
        ensures
            Self::spec_from_code(self.spec_code()) == Some(self),
    {
    }

    /// A code decodes only to the value that has it.
    pub proof fn lemma_decode_inverse(code: i32)
        ensures
            Self::spec_from_code(code) matches Some(v) ==> v.spec_code() == code,
            Self::spec_from_code(code) is None ==> forall|v: Self| v.spec_code() != code,
    {
    }

}

} // verus!
