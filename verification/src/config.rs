//! The edge-detection configuration record and its GPU uniform mirror.
//!
//! The record is a small plain-data value owned by the update side of the
//! frame.  Once per frame it is copied into the render side and rewritten
//! into a persistently allocated uniform buffer, whose byte layout must match
//! the shader's declared uniform block exactly.
//!
//! Thresholds and colour channels are carried as raw IEEE 754 single-precision
//! bit patterns (`u32`).  The pass never does arithmetic on them — it only
//! transports them to the GPU — so the raw encoding is exact and keeps the
//! record binary-compatible with its uniform mirror.

use vstd::prelude::*;

verus! {

/// Bit pattern of the default depth threshold (one fifth).
pub const DEFAULT_DEPTH_THRESHOLD_BITS: u32 = 0x3E4C_CCCD;

/// Bit pattern of the default normal threshold (one twentieth).
pub const DEFAULT_NORMAL_THRESHOLD_BITS: u32 = 0x3D4C_CCCD;

/// Bit pattern of the default colour threshold (one).
pub const DEFAULT_COLOR_THRESHOLD_BITS: u32 = 0x3F80_0000;

/// Bit pattern of a colour channel at full intensity (one).
pub const CHANNEL_FULL_BITS: u32 = 0x3F80_0000;

/// Bit pattern of a colour channel at zero intensity.
pub const CHANNEL_ZERO_BITS: u32 = 0x0000_0000;

/// Size in bytes of the uniform mirror of [`EdgeDetectionConfig`]: three
/// 32-bit thresholds, four bytes of padding so that the colour vector starts
/// 16-byte aligned, four colour channels, two 32-bit flags, and eight bytes
/// of trailing padding rounding the struct size up to a multiple of its
/// 16-byte alignment.
pub const CONFIG_BUFFER_SIZE: usize = 48;

/// An RGBA colour, each channel a raw IEEE 754 single-precision bit pattern.
#[derive(Clone, Copy, Debug, PartialEq, Eq, Structural)]
pub struct Rgba {
    pub red: u32,
    pub green: u32,
    pub blue: u32,
    pub alpha: u32,
}

impl Rgba {
    /// Opaque black: all colour channels zero, alpha at full intensity.
    pub open spec fn black_spec() -> Rgba {
        Rgba {
            red: CHANNEL_ZERO_BITS,
            green: CHANNEL_ZERO_BITS,
            blue: CHANNEL_ZERO_BITS,
            alpha: CHANNEL_FULL_BITS,
        }
    }

    /// Opaque black, the default edge colour.
    pub fn black() -> (c: Rgba)
        ensures
            c == Rgba::black_spec(),
    {
        Rgba {
            red: CHANNEL_ZERO_BITS,
            green: CHANNEL_ZERO_BITS,
            blue: CHANNEL_ZERO_BITS,
            alpha: CHANNEL_FULL_BITS,
        }
    }
}

/// The tunable thresholds and toggles of the edge-detection pass.
///
/// Field order matches the shader's uniform block: three thresholds, the
/// edge colour, then the `debug` and `enabled` flags, each an integer that is
/// zero or one.  The flags are read by the shader alone; the render node
/// records its draw regardless of their values.
#[derive(Clone, Copy, Debug, PartialEq, Eq, Structural)]
pub struct EdgeDetectionConfig {
    pub depth_threshold: u32,
    pub normal_threshold: u32,
    pub color_threshold: u32,
    pub edge_color: Rgba,
    pub debug: u32,
    pub enabled: u32,
}

impl EdgeDetectionConfig {
    /// The configuration installed at plugin initialisation: moderate depth
    /// and normal thresholds, full colour threshold, black edges, debugging
    /// off, the effect enabled.
    pub open spec fn default_config() -> EdgeDetectionConfig {
        EdgeDetectionConfig {
            depth_threshold: DEFAULT_DEPTH_THRESHOLD_BITS,
            normal_threshold: DEFAULT_NORMAL_THRESHOLD_BITS,
            color_threshold: DEFAULT_COLOR_THRESHOLD_BITS,
            edge_color: Rgba::black_spec(),
            debug: 0,
            enabled: 1,
        }
    }
}

impl Default for EdgeDetectionConfig {
    fn default() -> (c: Self)
        ensures
            c == EdgeDetectionConfig::default_config(),
    {
        EdgeDetectionConfig {
            depth_threshold: DEFAULT_DEPTH_THRESHOLD_BITS,
            normal_threshold: DEFAULT_NORMAL_THRESHOLD_BITS,
            color_threshold: DEFAULT_COLOR_THRESHOLD_BITS,
            edge_color: Rgba::black(),
            debug: 0,
            enabled: 1,
        }
    }
}

/// The four bytes of `x` in little-endian order.
pub open spec fn u32_le_bytes(x: u32) -> Seq<u8> {
    seq![
        (x & 0xff) as u8,
        ((x >> 8) & 0xff) as u8,
        ((x >> 16) & 0xff) as u8,
        ((x >> 24) & 0xff) as u8,
    ]
}

/// The `u32` whose little-endian bytes are `b0`, `b1`, `b2`, `b3`.
pub open spec fn u32_of_le_bytes(b0: u8, b1: u8, b2: u8, b3: u8) -> u32 {
    (b0 as u32) | ((b1 as u32) << 8) | ((b2 as u32) << 16) | ((b3 as u32) << 24)
}

/// Splitting a `u32` into little-endian bytes and reassembling it is the
/// identity.
pub proof fn lemma_u32_le_roundtrip(x: u32)
    ensures
        u32_of_le_bytes(
            (x & 0xff) as u8,
            ((x >> 8) & 0xff) as u8,
            ((x >> 16) & 0xff) as u8,
            ((x >> 24) & 0xff) as u8,
        ) == x,
{
    assert((((x & 0xff) as u8) as u32) | ((((x >> 8) & 0xff) as u8) as u32) << 8 | ((((x >> 16)
        & 0xff) as u8) as u32) << 16 | ((((x >> 24) & 0xff) as u8) as u32) << 24 == x)
        by (bit_vector);
}

/// The exact byte image of `c` in its GPU uniform mirror, in field order with
/// the padding demanded by the 16-byte alignment of the colour vector.
pub open spec fn config_bytes(c: EdgeDetectionConfig) -> Seq<u8> {
    u32_le_bytes(c.depth_threshold) + u32_le_bytes(c.normal_threshold) + u32_le_bytes(
        c.color_threshold,
    ) + seq![0u8, 0u8, 0u8, 0u8] + u32_le_bytes(c.edge_color.red) + u32_le_bytes(
        c.edge_color.green,
    ) + u32_le_bytes(c.edge_color.blue) + u32_le_bytes(c.edge_color.alpha) + u32_le_bytes(c.debug)
        + u32_le_bytes(c.enabled) + seq![0u8, 0u8, 0u8, 0u8, 0u8, 0u8, 0u8, 0u8]
}

/// The configuration read back from a 48-byte uniform image, ignoring the
/// padding bytes.
pub open spec fn config_of_bytes(b: Seq<u8>) -> EdgeDetectionConfig
    recommends
        b.len() == CONFIG_BUFFER_SIZE,
{
    EdgeDetectionConfig {
        depth_threshold: u32_of_le_bytes(b[0], b[1], b[2], b[3]),
        normal_threshold: u32_of_le_bytes(b[4], b[5], b[6], b[7]),
        color_threshold: u32_of_le_bytes(b[8], b[9], b[10], b[11]),
        edge_color: Rgba {
            red: u32_of_le_bytes(b[16], b[17], b[18], b[19]),
            green: u32_of_le_bytes(b[20], b[21], b[22], b[23]),
            blue: u32_of_le_bytes(b[24], b[25], b[26], b[27]),
            alpha: u32_of_le_bytes(b[28], b[29], b[30], b[31]),
        },
        debug: u32_of_le_bytes(b[32], b[33], b[34], b[35]),
        enabled: u32_of_le_bytes(b[36], b[37], b[38], b[39]),
    }
}

/// Appends the little-endian bytes of `x` to `out`.
pub fn write_u32_le(out: &mut Vec<u8>, x: u32)
    ensures
        final(out)@ == old(out)@ + u32_le_bytes(x),
{
    proof {
        assert(x & 0xff < 256 && (x >> 8) & 0xff < 256 && (x >> 16) & 0xff < 256 && (x >> 24)
            & 0xff < 256) by (bit_vector);
    }
    out.push((x & 0xff) as u8);
    out.push(((x >> 8) & 0xff) as u8);
    out.push(((x >> 16) & 0xff) as u8);
    out.push(((x >> 24) & 0xff) as u8);
    proof {
        assert(out@ =~= old(out)@ + u32_le_bytes(x));
    }
}

/// Reads the `u32` stored little-endian at `offset`.
pub fn read_u32_le(bytes: &Vec<u8>, offset: usize) -> (r: u32)
    requires
        offset + 4 <= bytes@.len(),
    ensures
        r == u32_of_le_bytes(
            bytes@[offset as int],
            bytes@[offset as int + 1],
            bytes@[offset as int + 2],
            bytes@[offset as int + 3],
        ),
{
    let n: usize = bytes.len();
    proof {
        assert(offset + 4 <= n);
    }
    (bytes[offset] as u32) | ((bytes[offset + 1] as u32) << 8) | ((bytes[offset + 2] as u32) << 16)
        | ((bytes[offset + 3] as u32) << 24)
}

impl EdgeDetectionConfig {
    /// Serialises the record into the exact byte image of its uniform
    /// mirror.
    pub fn to_gpu_bytes(&self) -> (bytes: Vec<u8>)
        ensures
            bytes@ == config_bytes(*self),
            bytes@.len() == CONFIG_BUFFER_SIZE,
    {
        let mut out: Vec<u8> = Vec::new();
        write_u32_le(&mut out, self.depth_threshold);
        write_u32_le(&mut out, self.normal_threshold);
        write_u32_le(&mut out, self.color_threshold);
        out.push(0u8);
        out.push(0u8);
        out.push(0u8);
        out.push(0u8);
        write_u32_le(&mut out, self.edge_color.red);
        write_u32_le(&mut out, self.edge_color.green);
        write_u32_le(&mut out, self.edge_color.blue);
        write_u32_le(&mut out, self.edge_color.alpha);
        write_u32_le(&mut out, self.debug);
        write_u32_le(&mut out, self.enabled);
        out.push(0u8);
        out.push(0u8);
        out.push(0u8);
        out.push(0u8);
        out.push(0u8);
        out.push(0u8);
        out.push(0u8);
        out.push(0u8);
        proof {
            assert(out@ =~= config_bytes(*self));
        }
        out
    }

    /// Reads a record back from the byte image of its uniform mirror.
    /// Returns `None` exactly when `bytes` is not the size of that mirror.
    pub fn from_gpu_bytes(bytes: &Vec<u8>) -> (r: Option<EdgeDetectionConfig>)
        ensures
            r is Some <==> bytes@.len() == CONFIG_BUFFER_SIZE,
            r matches Some(c) ==> c == config_of_bytes(bytes@),
    {
        if bytes.len() != CONFIG_BUFFER_SIZE {
            return None;
        }
        Some(
            EdgeDetectionConfig {
                depth_threshold: read_u32_le(bytes, 0),
                normal_threshold: read_u32_le(bytes, 4),
                color_threshold: read_u32_le(bytes, 8),
                edge_color: Rgba {
                    red: read_u32_le(bytes, 16),
                    green: read_u32_le(bytes, 20),
                    blue: read_u32_le(bytes, 24),
                    alpha: read_u32_le(bytes, 28),
                },
                debug: read_u32_le(bytes, 32),
                enabled: read_u32_le(bytes, 36),
            },
        )
    }
}

/// Writing a configuration into its uniform image and reinterpreting the raw
/// bytes yields the original configuration.
pub proof fn lemma_config_bytes_roundtrip(c: EdgeDetectionConfig)
    ensures
        config_bytes(c).len() == CONFIG_BUFFER_SIZE,
        config_of_bytes(config_bytes(c)) == c,
{
    lemma_u32_le_roundtrip(c.depth_threshold);
    lemma_u32_le_roundtrip(c.normal_threshold);
    lemma_u32_le_roundtrip(c.color_threshold);
    lemma_u32_le_roundtrip(c.edge_color.red);
    lemma_u32_le_roundtrip(c.edge_color.green);
    lemma_u32_le_roundtrip(c.edge_color.blue);
    lemma_u32_le_roundtrip(c.edge_color.alpha);
    lemma_u32_le_roundtrip(c.debug);
    lemma_u32_le_roundtrip(c.enabled);
}

/// Two configurations with the same uniform image are the same
/// configuration: the byte layout loses nothing.
pub proof fn lemma_config_bytes_injective(c1: EdgeDetectionConfig, c2: EdgeDetectionConfig)
    requires
        config_bytes(c1) == config_bytes(c2),
    ensures
        c1 == c2,
{
    lemma_config_bytes_roundtrip(c1);
    lemma_config_bytes_roundtrip(c2);
}

/// The persistently allocated uniform buffer mirroring the configuration.
///
/// `config` is the staging copy written by the prepare phase; `gpu_bytes` is
/// the byte image last flushed to the GPU buffer identified by `buffer_id`.
/// Both are rewritten together, so between phases the flushed image is always
/// the exact layout of the staged record.
pub struct ConfigBuffer {
    pub buffer_id: u64,
    pub config: EdgeDetectionConfig,
    pub gpu_bytes: Vec<u8>,
}

impl ConfigBuffer {
    /// The flushed byte image is exactly the layout of the staged record.
    pub open spec fn wf(self) -> bool {
        self.gpu_bytes@ == config_bytes(self.config)
    }

    /// Allocates the buffer and flushes the default configuration, so that a
    /// valid image exists even for the first frame.
    pub fn new(buffer_id: u64) -> (b: ConfigBuffer)
        ensures
            b.wf(),
            b.buffer_id == buffer_id,
            b.config == EdgeDetectionConfig::default_config(),
    {
        let config = EdgeDetectionConfig::default();
        let gpu_bytes = config.to_gpu_bytes();
        ConfigBuffer { buffer_id, config, gpu_bytes }
    }
}

/// The per-frame prepare phase: copies the render side's current
/// configuration into the buffer's staging copy and flushes its byte image,
/// unconditionally, before any draw of the same frame reads it.
pub fn prepare_config_buffer(config: &EdgeDetectionConfig, config_buffer: &mut ConfigBuffer)
    ensures
        final(config_buffer).config == *config,
        final(config_buffer).gpu_bytes@ == config_bytes(*config),
        final(config_buffer).buffer_id == old(config_buffer).buffer_id,
        final(config_buffer).wf(),
{
    config_buffer.config = *config;
    config_buffer.gpu_bytes = config.to_gpu_bytes();
}

/// Before the prepare phase of a frame runs, the GPU image still shows the
/// previously staged configuration — and provably not a pending value that
/// differs from it.  One prepare is exactly what makes the image current:
/// [`prepare_config_buffer`] guarantees the image of the new value afterwards.
pub proof fn lemma_config_update_latency(buffer: ConfigBuffer, pending: EdgeDetectionConfig)
    requires
        buffer.wf(),
        pending != buffer.config,
    ensures
        buffer.gpu_bytes@ == config_bytes(buffer.config),
        buffer.gpu_bytes@ != config_bytes(pending),
{
    if config_bytes(buffer.config) == config_bytes(pending) {
        lemma_config_bytes_injective(buffer.config, pending);
    }
}

} // verus!
