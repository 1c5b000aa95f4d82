//! What is tracked of single surfaces, buffers and windows.

use crate::dmabuf;
use crate::dmabuf::screenshot_support_error;
use crate::text;
use crate::text::{append_decimal, append_hex, copy_text};
use crate::wire;
use crate::wire::is_low_byte_first;
use std::collections::BTreeSet;
use vstd::prelude::*;
use vstd::string::*;

verus! {

broadcast use {vstd::std_specs::btree::group_btree_axioms, vstd::laws_cmp::group_laws_cmp};

/// A point on an explicit-synchronisation timeline.
#[derive(Debug, Clone, Copy, PartialEq, Eq, Structural)]
pub struct TrackedSyncPoint {
    pub timeline_id: Option<u32>,
    pub point: u64,
}

/// A part of a surface that changed.
#[derive(Debug, Clone, Copy, PartialEq, Eq, Structural)]
pub struct DamageRect {
    pub x: i32,
    pub y: i32,
    pub width: i32,
    pub height: i32,
}

/// One plane of a DMA-BUF. File descriptors go by the number under which the
/// caller keeps them.
#[derive(Debug, Clone, Copy, PartialEq, Eq, Structural)]
pub struct TrackedDmabufPlane {
    pub fd: u64,
    pub plane_idx: u32,
    pub offset: u32,
    pub stride: u32,
    pub modifier: u64,
}

/// A shared-memory pool.
#[derive(Debug, Clone, Copy, PartialEq, Eq, Structural)]
pub struct TrackedShmPool {
    pub fd: u64,
    pub size: usize,
}

impl View for TrackedShmPool {
    type V = TrackedShmPool;

    open spec fn view(&self) -> TrackedShmPool {
        *self
    }
}

/// A buffer in a shared-memory pool.
#[derive(Debug, Clone, Copy, PartialEq, Eq, Structural)]
pub struct TrackedShmBuffer {
    pub fd: u64,
    pub offset: u32,
    pub width: u32,
    pub height: u32,
    pub stride: u32,
    pub format: u32,
}

/// Blue, green, red and alpha in memory, where the low byte comes first.
pub const ARGB8888: u32 = 0;

/// Blue, green, red and a byte of no meaning in memory, where the low byte comes
/// first.
pub const XRGB8888: u32 = 1;

/// The bytes that a row of pixels takes, as far as they can be counted in 32 bits.
pub open spec fn row_need(width: u32) -> int {
    if width * 4 <= u32::MAX {
        width * 4
    } else {
        u32::MAX as int
    }
}

/// Why a shared-memory buffer cannot be captured, if it cannot.
pub open spec fn shm_error(buffer: TrackedShmBuffer) -> Option<Seq<char>> {
    if !wire::low_byte_first() {
        Some("wl_shm capture currently requires a little-endian host"@)
    } else if buffer.format != ARGB8888 && buffer.format != XRGB8888 {
        Some(
            "wl_shm format 0x"@ + text::hex(buffer.format as nat, 8, false)
                + " is not supported for capture and was not advertised by this MCP"@,
        )
    } else if buffer.stride < row_need(buffer.width) {
        Some(
            "wl_shm stride "@ + text::decimal(buffer.stride as nat) + " is too small for width "@
                + text::decimal(buffer.width as nat),
        )
    } else {
        None
    }
}

/// One captured pixel of a shared-memory buffer.
pub open spec fn shm_pixel(file: Seq<u8>, at: int, format: u32) -> Seq<u8> {
    seq![
        file[at + 2],
        file[at + 1],
        file[at],
        if format == ARGB8888 {
            file[at + 3]
        } else {
            255u8
        },
    ]
}

/// Where a pixel of a buffer lies in the pool's file.
pub open spec fn shm_pixel_at(buffer: TrackedShmBuffer, row: int, column: int) -> int {
    buffer.offset + row * buffer.stride + column * 4
}

/// The first `columns` pixels of a row.
pub open spec fn shm_row(file: Seq<u8>, buffer: TrackedShmBuffer, row: int, columns: nat) -> Seq<u8>
    decreases columns,
{
    if columns == 0 {
        Seq::empty()
    } else {
        shm_row(file, buffer, row, (columns - 1) as nat) + shm_pixel(
            file,
            shm_pixel_at(buffer, row, columns - 1),
            buffer.format,
        )
    }
}

/// The first `rows` rows of a buffer.
pub open spec fn shm_rows(file: Seq<u8>, buffer: TrackedShmBuffer, rows: nat) -> Seq<u8>
    decreases rows,
{
    if rows == 0 {
        Seq::empty()
    } else {
        shm_rows(file, buffer, (rows - 1) as nat) + shm_row(
            file,
            buffer,
            rows - 1,
            buffer.width as nat,
        )
    }
}

/// Whether the pixels of a row lie within the file. Where there are none, they do.
pub open spec fn row_is_there(file: Seq<u8>, buffer: TrackedShmBuffer, row: int) -> bool {
    buffer.width == 0 || shm_pixel_at(buffer, row, buffer.width as int) <= file.len()
}

/// The first row, from `row` on, that the file is too short for.
pub open spec fn first_short_row(file: Seq<u8>, buffer: TrackedShmBuffer, row: u32) -> Option<u32>
    decreases buffer.height - row,
{
    if row >= buffer.height {
        None
    } else if !row_is_there(file, buffer, row as int) {
        Some(row)
    } else {
        first_short_row(file, buffer, (row + 1) as u32)
    }
}

/// Why the pixels of a buffer cannot be counted, if they cannot.
pub open spec fn shm_overflow(buffer: TrackedShmBuffer) -> Option<Seq<char>> {
    if 4 * buffer.width > usize::MAX {
        Some("wl_shm row byte count overflow"@)
    } else if 4 * buffer.width * buffer.height > usize::MAX {
        Some("wl_shm output byte count overflow"@)
    } else {
        None
    }
}

/// What reading a buffer out of its pool's file comes to.
pub open spec fn shm_read(file: Seq<u8>, buffer: TrackedShmBuffer) -> Result<Seq<u8>, Seq<char>> {
    match (shm_error(buffer), shm_overflow(buffer), first_short_row(file, buffer, 0)) {
        (Some(message), _, _) => Err(message),
        (None, Some(message), _) => Err(message),
        (None, None, Some(row)) => Err(
            "failed to read wl_shm row "@ + text::decimal(row as nat) + " at offset "@
                + text::decimal((buffer.offset + row * buffer.stride) as nat)
                + ": failed to fill whole buffer"@,
        ),
        (None, None, None) => Ok(shm_rows(file, buffer, buffer.height as nat)),
    }
}

/// The bytes of the pool's file up to the last pixel of a buffer.
pub open spec fn shm_extent(buffer: TrackedShmBuffer) -> int {
    if buffer.height == 0 {
        buffer.offset as int
    } else {
        shm_pixel_at(buffer, buffer.height - 1, buffer.width as int)
    }
}

proof fn rows_within_the_extent(file: Seq<u8>, buffer: TrackedShmBuffer, row: u32)
    requires
        shm_extent(buffer) <= file.len(),
        row <= buffer.height,
    ensures
        first_short_row(file, buffer, row) is None,
        first_short_row(file.take(shm_extent(buffer)), buffer, row) is None,
    decreases buffer.height - row,
{
    if row < buffer.height {
        row_ends_within_the_extent(buffer, row as int);
        rows_within_the_extent(file, buffer, (row + 1) as u32);
    }
}

proof fn row_ends_within_the_extent(buffer: TrackedShmBuffer, row: int)
    requires
        0 <= row < buffer.height,
    ensures
        0 <= shm_pixel_at(buffer, row, 0),
        shm_pixel_at(buffer, row, buffer.width as int) <= shm_extent(buffer),
{
    assert(0 <= row * buffer.stride <= (buffer.height - 1) * buffer.stride) by (nonlinear_arith)
        requires
            0 <= row <= buffer.height - 1,
            0 <= buffer.stride,
    ;
}

proof fn row_of_the_extent(file: Seq<u8>, buffer: TrackedShmBuffer, row: int, columns: nat)
    requires
        shm_extent(buffer) <= file.len(),
        0 <= row < buffer.height,
        columns <= buffer.width,
    ensures
        shm_row(file.take(shm_extent(buffer)), buffer, row, columns) == shm_row(
            file,
            buffer,
            row,
            columns,
        ),
    decreases columns,
{
    if columns > 0 {
        row_ends_within_the_extent(buffer, row);
        row_of_the_extent(file, buffer, row, (columns - 1) as nat);
    }
}

proof fn rows_of_the_extent(file: Seq<u8>, buffer: TrackedShmBuffer, rows: nat)
    requires
        shm_extent(buffer) <= file.len(),
        rows <= buffer.height,
    ensures
        shm_rows(file.take(shm_extent(buffer)), buffer, rows) == shm_rows(file, buffer, rows),
    decreases rows,
{
    if rows > 0 {
        row_of_the_extent(file, buffer, rows - 1, buffer.width as nat);
        rows_of_the_extent(file, buffer, (rows - 1) as nat);
    }
}

/// Nothing of the pool's file behind the last pixel of a buffer matters to what is
/// read.
pub proof fn only_the_extent_is_read(file: Seq<u8>, buffer: TrackedShmBuffer)
    requires
        shm_extent(buffer) <= file.len(),
    ensures
        shm_read(file.take(shm_extent(buffer)), buffer) == shm_read(file, buffer),
        shm_error(buffer) is None && shm_overflow(buffer) is None ==> shm_read(file, buffer) is Ok,
{
    rows_within_the_extent(file, buffer, 0);
    rows_of_the_extent(file, buffer, buffer.height as nat);
}

impl TrackedShmBuffer {
    /// How many bytes of the pool's file are needed to read the buffer, as far as
    /// they can be counted.
    pub fn bytes_to_read(&self) -> (count: u64)
        ensures
            count == (if shm_extent(*self) <= u64::MAX {
                shm_extent(*self)
            } else {
                u64::MAX as int
            }),
    {
        if self.height == 0 {
            return self.offset as u64;
        }
        assert((self.height - 1) * self.stride <= 0xffff_ffff * 0xffff_ffff) by (nonlinear_arith)
            requires
                1 <= self.height <= 0xffff_ffff,
                self.stride <= 0xffff_ffff,
        ;
        let rows: u128 = (self.height - 1) as u128 * self.stride as u128;
        let end: u128 = self.offset as u128 + rows + self.width as u128 * 4;
        if end <= u64::MAX as u128 {
            end as u64
        } else {
            u64::MAX
        }
    }

    /// Says why the buffer cannot be captured, if it cannot.
    pub fn capture_error(&self) -> (error: Option<String>)
        ensures
            text::optional(error) == shm_error(*self),
    {
        if !is_low_byte_first() {
            return Some("wl_shm capture currently requires a little-endian host".to_owned());
        }
        if self.format != ARGB8888 && self.format != XRGB8888 {
            let mut message = "wl_shm format 0x".to_owned();
            append_hex(&mut message, self.format as u64, 8, false);
            message.append(" is not supported for capture and was not advertised by this MCP");
            return Some(message);
        }
        let need: u32 = if self.width <= 0x3fff_ffff {
            self.width * 4
        } else {
            u32::MAX
        };
        if self.stride < need {
            let mut message = "wl_shm stride ".to_owned();
            append_decimal(&mut message, self.stride as u64);
            message.append(" is too small for width ");
            append_decimal(&mut message, self.width as u64);
            return Some(message);
        }
        None
    }

    /// Reads the pixels of the buffer out of the bytes of its pool's file.
    pub fn read_rgba(&self, file: &[u8]) -> (rgba: Result<Vec<u8>, String>)
        ensures
            text::outcome(rgba) == shm_read(file@, *self),
    {
        if let Some(message) = self.capture_error() {
            return Err(message);
        }
        let row_bytes: u128 = 4 * self.width as u128;
        if row_bytes > usize::MAX as u128 {
            return Err("wl_shm row byte count overflow".to_owned());
        }
        assert(row_bytes * self.height <= 0x4_0000_0000 * 0xffff_ffff) by (nonlinear_arith)
            requires
                row_bytes <= 0x4_0000_0000,
                self.height <= 0xffff_ffff,
        ;
        if row_bytes * self.height as u128 > usize::MAX as u128 {
            return Err("wl_shm output byte count overflow".to_owned());
        }
        let mut rgba: Vec<u8> = Vec::new();
        let mut row: u32 = 0;
        while row < self.height
            invariant
                row <= self.height,
                row_bytes == 4 * self.width,
                shm_error(*self) is None,
                shm_overflow(*self) is None,
                first_short_row(file@, *self, 0) == first_short_row(file@, *self, row),
                rgba@ == shm_rows(file@, *self, row as nat),
            decreases self.height - row,
        {
            assert(row * self.stride <= 0xffff_ffff * 0xffff_ffff) by (nonlinear_arith)
                requires
                    row <= 0xffff_ffff,
                    self.stride <= 0xffff_ffff,
            ;
            let start: u128 = self.offset as u128 + row as u128 * self.stride as u128;
            if self.width > 0 && start + row_bytes > file.len() as u128 {
                let mut message = "failed to read wl_shm row ".to_owned();
                append_decimal(&mut message, row as u64);
                message.append(" at offset ");
                append_decimal(&mut message, start as u64);
                message.append(": failed to fill whole buffer");
                return Err(message);
            }
            let mut column: u32 = 0;
            let mut at: usize = if self.width > 0 {
                start as usize
            } else {
                0
            };
            let ghost before = rgba@;
            assert(rgba@ =~= before + shm_row(file@, *self, row as int, 0));
            while column < self.width
                invariant
                    column <= self.width,
                    self.width > 0 ==> at == shm_pixel_at(*self, row as int, column as int),
                    row_is_there(file@, *self, row as int),
                    rgba@ == before + shm_row(file@, *self, row as int, column as nat),
                decreases self.width - column,
            {
                proof {
                    assert(file@.len() == file.len());
                    assert(shm_pixel_at(*self, row as int, column + 1) == at + 4);
                    assert(shm_pixel_at(*self, row as int, column + 1) <= shm_pixel_at(
                        *self,
                        row as int,
                        self.width as int,
                    ));
                }
                rgba.push(file[at + 2]);
                rgba.push(file[at + 1]);
                rgba.push(file[at]);
                rgba.push(
                    if self.format == ARGB8888 {
                        file[at + 3]
                    } else {
                        255
                    },
                );
                at = at + 4;
                column = column + 1;
                assert(rgba@ =~= before + shm_row(file@, *self, row as int, column as nat));
            }
            row = row + 1;
        }
        Ok(rgba)
    }
}

/// A DMA-BUF.
#[derive(Debug, PartialEq, Eq)]
pub struct TrackedDmabufBuffer {
    pub width: u32,
    pub height: u32,
    pub format: u32,
    pub flags: u32,
    pub planes: Vec<TrackedDmabufPlane>,
}

/// The value of a DMA-BUF.
#[verifier::ext_equal]
pub struct DmabufView {
    pub width: u32,
    pub height: u32,
    pub format: u32,
    pub flags: u32,
    pub planes: Seq<TrackedDmabufPlane>,
}

impl View for TrackedDmabufBuffer {
    type V = DmabufView;

    open spec fn view(&self) -> DmabufView {
        DmabufView {
            width: self.width,
            height: self.height,
            format: self.format,
            flags: self.flags,
            planes: self.planes@,
        }
    }
}

impl TrackedDmabufBuffer {
    /// Says why the buffer cannot be captured, if it cannot.
    pub fn capture_error(&self) -> (error: Option<String>)
        ensures
            text::optional(error) == dmabuf::format_error(self.format),
    {
        screenshot_support_error(self.format)
    }
}

/// Where the pixels of a buffer come from.
#[derive(Debug, PartialEq, Eq)]
pub enum TrackedBufferSource {
    Unknown,
    Dmabuf(TrackedDmabufBuffer),
    Shm(TrackedShmBuffer),
}

/// The value of a buffer's source.
#[verifier::ext_equal]
pub enum SourceView {
    Unknown,
    Dmabuf(DmabufView),
    Shm(TrackedShmBuffer),
}

impl View for TrackedBufferSource {
    type V = SourceView;

    open spec fn view(&self) -> SourceView {
        match self {
            TrackedBufferSource::Unknown => SourceView::Unknown,
            TrackedBufferSource::Dmabuf(buffer) => SourceView::Dmabuf(buffer@),
            TrackedBufferSource::Shm(buffer) => SourceView::Shm(*buffer),
        }
    }
}

/// The kind of a buffer.
#[derive(Debug, Clone, Copy, PartialEq, Eq, Structural)]
pub enum BufferKind {
    Unknown,
    Dmabuf,
    Shm,
}

/// The name of a kind of buffer.
pub open spec fn kind_text(kind: BufferKind) -> &'static str {
    match kind {
        BufferKind::Unknown => "unknown",
        BufferKind::Dmabuf => "dmabuf",
        BufferKind::Shm => "shm",
    }
}

impl BufferKind {
    /// The name of the kind.
    pub fn name(&self) -> (name: &'static str)
        ensures
            name == kind_text(*self),
    {
        match self {
            BufferKind::Unknown => "unknown",
            BufferKind::Dmabuf => "dmabuf",
            BufferKind::Shm => "shm",
        }
    }
}

/// A buffer that surfaces can show.
#[derive(Debug, PartialEq, Eq)]
pub struct TrackedBuffer {
    pub width: u32,
    pub height: u32,
    pub rgba: Option<Vec<u8>>,
    pub source: TrackedBufferSource,
}

/// The value of a buffer.
#[verifier::ext_equal]
pub struct BufferView {
    pub width: u32,
    pub height: u32,
    pub rgba: Option<Seq<u8>>,
    pub source: SourceView,
}

/// The bytes of pixels that may be absent.
pub open spec fn optional_pixels(rgba: Option<Vec<u8>>) -> Option<Seq<u8>> {
    match rgba {
        Some(pixels) => Some(pixels@),
        None => None,
    }
}

impl View for TrackedBuffer {
    type V = BufferView;

    open spec fn view(&self) -> BufferView {
        BufferView {
            width: self.width,
            height: self.height,
            rgba: optional_pixels(self.rgba),
            source: self.source@,
        }
    }
}

/// The modifiers of planes, in hexadecimal, separated by commas.
pub open spec fn modifiers_text(planes: Seq<TrackedDmabufPlane>) -> Seq<char>
    decreases planes.len(),
{
    if planes.len() == 0 {
        Seq::empty()
    } else {
        modifiers_text(planes.drop_last()) + (if planes.len() > 1 {
            ","@
        } else {
            Seq::empty()
        }) + "0x"@ + text::hex(planes.last().modifier as nat, 16, false)
    }
}

impl BufferView {
    /// The kind of the buffer.
    pub open spec fn kind(self) -> BufferKind {
        match self.source {
            SourceView::Unknown => BufferKind::Unknown,
            SourceView::Dmabuf(_) => BufferKind::Dmabuf,
            SourceView::Shm(_) => BufferKind::Shm,
        }
    }

    /// Why the buffer cannot be captured, if it cannot.
    pub open spec fn error(self) -> Option<Seq<char>> {
        match self.source {
            SourceView::Dmabuf(buffer) => dmabuf::format_error(buffer.format),
            SourceView::Shm(buffer) => shm_error(buffer),
            SourceView::Unknown => if self.rgba is None {
                Some("window buffer has no readable pixel backing yet"@)
            } else {
                None
            },
        }
    }

    /// Whether pixels can be read of the buffer.
    pub open spec fn readable(self) -> bool {
        match self.source {
            SourceView::Dmabuf(buffer) => dmabuf::format_error(buffer.format) is None,
            SourceView::Shm(buffer) => shm_error(buffer) is None,
            SourceView::Unknown => self.rgba is Some,
        }
    }

    /// How the buffer's pixels are stored.
    pub open spec fn details(self) -> Seq<char> {
        match self.source {
            SourceView::Unknown => "unknown buffer backing"@,
            SourceView::Shm(buffer) => "wl_shm format=0x"@ + text::hex(
                buffer.format as nat,
                8,
                false,
            ) + " stride="@ + text::decimal(buffer.stride as nat) + " offset="@ + text::decimal(
                buffer.offset as nat,
            ),
            SourceView::Dmabuf(buffer) => "Vulkan DMA-BUF format=0x"@ + text::hex(
                buffer.format as nat,
                8,
                false,
            ) + " planes="@ + text::decimal(buffer.planes.len()) + " modifiers=["@ + modifiers_text(
                buffer.planes,
            ) + "]"@,
        }
    }
}

fn append_modifiers(message: &mut String, planes: &Vec<TrackedDmabufPlane>)
    ensures
        final(message)@ == old(message)@ + modifiers_text(planes@),
{
    let mut index: usize = 0;
    let ghost before = message@;
    proof {
        assert(planes@.take(0) =~= Seq::<TrackedDmabufPlane>::empty());
        assert(message@ =~= before + modifiers_text(planes@.take(0)));
    }
    while index < planes.len()
        invariant
            index <= planes@.len(),
            message@ == before + modifiers_text(planes@.take(index as int)),
        decreases planes@.len() - index,
    {
        if index > 0 {
            message.append(",");
        }
        message.append("0x");
        append_hex(message, planes[index].modifier, 16, false);
        index = index + 1;
        proof {
            let shown = planes@.take(index as int);
            assert(shown.drop_last() =~= planes@.take(index - 1));
            assert(shown.last() == planes@[index - 1]);
            assert(message@ =~= before + modifiers_text(shown));
        }
    }
    assert(planes@.take(index as int) =~= planes@);
}

impl TrackedBuffer {
    /// Says how the buffer's pixels are stored.
    pub fn capture_details(&self) -> (details: String)
        ensures
            details@ == self@.details(),
    {
        match &self.source {
            TrackedBufferSource::Unknown => "unknown buffer backing".to_owned(),
            TrackedBufferSource::Shm(buffer) => {
                let mut details = "wl_shm format=0x".to_owned();
                append_hex(&mut details, buffer.format as u64, 8, false);
                details.append(" stride=");
                append_decimal(&mut details, buffer.stride as u64);
                details.append(" offset=");
                append_decimal(&mut details, buffer.offset as u64);
                details
            },
            TrackedBufferSource::Dmabuf(buffer) => {
                let mut details = "Vulkan DMA-BUF format=0x".to_owned();
                append_hex(&mut details, buffer.format as u64, 8, false);
                details.append(" planes=");
                append_decimal(&mut details, buffer.planes.len() as u64);
                details.append(" modifiers=[");
                append_modifiers(&mut details, &buffer.planes);
                details.append("]");
                details
            },
        }
    }

    /// The kind of the buffer.
    pub fn kind(&self) -> (kind: BufferKind)
        ensures
            kind == self@.kind(),
    {
        match &self.source {
            TrackedBufferSource::Unknown => BufferKind::Unknown,
            TrackedBufferSource::Dmabuf(_) => BufferKind::Dmabuf,
            TrackedBufferSource::Shm(_) => BufferKind::Shm,
        }
    }

    /// The name of the buffer's kind.
    pub fn kind_name(&self) -> (name: &'static str)
        ensures
            name == kind_text(self@.kind()),
    {
        self.kind().name()
    }

    /// Says why the buffer cannot be captured, if it cannot.
    pub fn capture_error(&self) -> (error: Option<String>)
        ensures
            text::optional(error) == self@.error(),
    {
        match &self.source {
            TrackedBufferSource::Dmabuf(buffer) => buffer.capture_error(),
            TrackedBufferSource::Shm(buffer) => buffer.capture_error(),
            TrackedBufferSource::Unknown => {
                if self.rgba.is_none() {
                    Some("window buffer has no readable pixel backing yet".to_owned())
                } else {
                    None
                }
            },
        }
    }

    /// Whether pixels can be read of the buffer.
    pub fn has_readback(&self) -> (readable: bool)
        ensures
            readable == self@.readable(),
    {
        match &self.source {
            TrackedBufferSource::Dmabuf(buffer) => buffer.capture_error().is_none(),
            TrackedBufferSource::Shm(buffer) => buffer.capture_error().is_none(),
            TrackedBufferSource::Unknown => self.rgba.is_some(),
        }
    }
}

/// A DMA-BUF that is to be made when the compositor agrees.
#[derive(Debug, Clone, Copy, PartialEq, Eq, Structural)]
pub struct PendingDmabufCreate {
    pub width: u32,
    pub height: u32,
    pub format: u32,
    pub flags: u32,
}

/// The parameters that a DMA-BUF is put together from.
#[derive(Debug, PartialEq, Eq)]
pub struct PendingDmabufParams {
    pub planes: Vec<TrackedDmabufPlane>,
    pub pending_create: Option<PendingDmabufCreate>,
}

/// The value of a DMA-BUF's parameters.
#[verifier::ext_equal]
pub struct ParamsView {
    pub planes: Seq<TrackedDmabufPlane>,
    pub pending_create: Option<PendingDmabufCreate>,
}

impl View for PendingDmabufParams {
    type V = ParamsView;

    open spec fn view(&self) -> ParamsView {
        ParamsView { planes: self.planes@, pending_create: self.pending_create }
    }
}

/// Where a plane goes among planes that are in order: after all that do not
/// have a higher index.
pub open spec fn plane_position(planes: Seq<TrackedDmabufPlane>, plane_idx: u32) -> nat
    decreases planes.len(),
{
    if planes.len() == 0 {
        0
    } else if planes.last().plane_idx <= plane_idx {
        planes.len()
    } else {
        plane_position(planes.drop_last(), plane_idx)
    }
}

/// Adds a plane among planes that are in the order of their indices.
pub fn add_plane(planes: &mut Vec<TrackedDmabufPlane>, plane: TrackedDmabufPlane)
    ensures
        final(planes)@ == old(planes)@.insert(
            plane_position(old(planes)@, plane.plane_idx) as int,
            plane,
        ),
{
    let mut position: usize = planes.len();
    proof {
        assert(planes@.take(position as int) =~= planes@);
    }
    while position > 0 && planes[position - 1].plane_idx > plane.plane_idx
        invariant
            position <= planes@.len(),
            planes@ == old(planes)@,
            plane_position(planes@, plane.plane_idx) == plane_position(
                planes@.take(position as int),
                plane.plane_idx,
            ),
        decreases position,
    {
        proof {
            assert(planes@.take(position as int).drop_last() =~= planes@.take(position - 1));
            assert(planes@.take(position as int).last() == planes@[position - 1]);
        }
        position = position - 1;
    }
    proof {
        if position > 0 {
            assert(planes@.take(position as int).last() == planes@[position - 1]);
        }
    }
    planes.insert(position, plane);
}

/// Whether planes are in the order of their indices.
pub open spec fn planes_in_order(planes: Seq<TrackedDmabufPlane>) -> bool {
    forall|i: int, j: int| 0 <= i <= j < planes.len() ==> planes[i].plane_idx <= planes[j].plane_idx
}

/// Planes that are in order stay in order when one is added.
pub proof fn added_plane_keeps_order(planes: Seq<TrackedDmabufPlane>, plane: TrackedDmabufPlane)
    requires
        planes_in_order(planes),
    ensures
        plane_position(planes, plane.plane_idx) <= planes.len(),
        planes_in_order(
            planes.insert(plane_position(planes, plane.plane_idx) as int, plane),
        ),
{
    plane_position_splits(planes, plane.plane_idx);
}

proof fn plane_position_splits(planes: Seq<TrackedDmabufPlane>, plane_idx: u32)
    requires
        planes_in_order(planes),
    ensures
        plane_position(planes, plane_idx) <= planes.len(),
        forall|i: int|
            0 <= i < plane_position(planes, plane_idx) ==> (#[trigger] planes[i]).plane_idx
                <= plane_idx,
        forall|i: int|
            plane_position(planes, plane_idx) <= i < planes.len()
                ==> (#[trigger] planes[i]).plane_idx > plane_idx,
    decreases planes.len(),
{
    if planes.len() > 0 && planes.last().plane_idx > plane_idx {
        let rest = planes.drop_last();
        assert(planes_in_order(rest)) by {
            assert forall|i: int, j: int| 0 <= i <= j < rest.len() implies rest[i].plane_idx
                <= rest[j].plane_idx by {
                assert(rest[i] == planes[i] && rest[j] == planes[j]);
            }
        }
        plane_position_splits(rest, plane_idx);
        assert forall|i: int| 0 <= i < plane_position(planes, plane_idx) implies (
        #[trigger] planes[i]).plane_idx <= plane_idx by {
            assert(rest[i] == planes[i]);
        }
        assert forall|i: int| plane_position(planes, plane_idx) <= i < planes.len() implies (
        #[trigger] planes[i]).plane_idx > plane_idx by {
            if i < rest.len() {
                assert(rest[i] == planes[i]);
            }
        }
    }
}

/// Copies planes.
pub fn copy_planes(planes: &Vec<TrackedDmabufPlane>) -> (copies: Vec<TrackedDmabufPlane>)
    ensures
        copies@ == planes@,
{
    vstd::slice::slice_to_vec(planes.as_slice())
}

/// A surface.
#[derive(Debug, PartialEq, Eq)]
pub struct TrackedSurface {
    pub id: u32,
    pub buffer_id: Option<u32>,
    pub width: u32,
    pub height: u32,
    pub rgba: Vec<u8>,
    pub output_ids: BTreeSet<u32>,
    pub buffer_kind: Option<BufferKind>,
    pub capture_error: Option<String>,
    pub pending_acquire: Option<TrackedSyncPoint>,
    pub pending_release: Option<TrackedSyncPoint>,
    pub last_acquire: Option<TrackedSyncPoint>,
    pub last_release: Option<TrackedSyncPoint>,
    pub damage: Vec<DamageRect>,
    pub commit_serial: u64,
    pub has_committed_buffer: bool,
    pub xdg_configure_seen: bool,
    pub xdg_configure_acked: bool,
    pub viewport_destination: Option<(u32, u32)>,
}

/// The value of a surface.
#[verifier::ext_equal]
pub struct SurfaceView {
    pub id: u32,
    pub buffer_id: Option<u32>,
    pub width: u32,
    pub height: u32,
    pub rgba: Seq<u8>,
    pub output_ids: Set<u32>,
    pub buffer_kind: Option<BufferKind>,
    pub capture_error: Option<Seq<char>>,
    pub pending_acquire: Option<TrackedSyncPoint>,
    pub pending_release: Option<TrackedSyncPoint>,
    pub last_acquire: Option<TrackedSyncPoint>,
    pub last_release: Option<TrackedSyncPoint>,
    pub damage: Seq<DamageRect>,
    pub commit_serial: u64,
    pub has_committed_buffer: bool,
    pub xdg_configure_seen: bool,
    pub xdg_configure_acked: bool,
    pub viewport_destination: Option<(u32, u32)>,
}

impl View for TrackedSurface {
    type V = SurfaceView;

    open spec fn view(&self) -> SurfaceView {
        SurfaceView {
            id: self.id,
            buffer_id: self.buffer_id,
            width: self.width,
            height: self.height,
            rgba: self.rgba@,
            output_ids: self.output_ids@,
            buffer_kind: self.buffer_kind,
            capture_error: text::optional(self.capture_error),
            pending_acquire: self.pending_acquire,
            pending_release: self.pending_release,
            last_acquire: self.last_acquire,
            last_release: self.last_release,
            damage: self.damage@,
            commit_serial: self.commit_serial,
            has_committed_buffer: self.has_committed_buffer,
            xdg_configure_seen: self.xdg_configure_seen,
            xdg_configure_acked: self.xdg_configure_acked,
            viewport_destination: self.viewport_destination,
        }
    }
}

/// The larger of a length and one.
pub open spec fn at_least_one(length: u32) -> u32 {
    if length == 0 {
        1
    } else {
        length
    }
}

/// The larger of a length and one.
pub fn at_least(length: u32) -> (positive: u32)
    ensures
        positive == at_least_one(length),
{
    if length == 0 {
        1
    } else {
        length
    }
}

/// A point on a timeline, with what it is for.
pub open spec fn sync_point_text(label: Seq<char>, point: TrackedSyncPoint) -> Seq<char> {
    match point.timeline_id {
        Some(timeline_id) => label + ":timeline="@ + text::decimal(timeline_id as nat) + ":point="@
            + text::decimal(point.point as nat),
        None => label + ":none:point="@ + text::decimal(point.point as nat),
    }
}

/// Writes a point on a timeline, with what it is for.
pub fn format_sync_point(label: &str, point: TrackedSyncPoint) -> (shown: String)
    ensures
        shown@ == sync_point_text(label@, point),
{
    let mut shown = label.to_owned();
    match point.timeline_id {
        Some(timeline_id) => {
            shown.append(":timeline=");
            append_decimal(&mut shown, timeline_id as u64);
            shown.append(":point=");
        },
        None => {
            shown.append(":none:point=");
        },
    }
    append_decimal(&mut shown, point.point);
    shown
}

impl SurfaceView {
    /// A surface that nothing has been done to.
    pub open spec fn fresh(id: u32) -> Self {
        SurfaceView {
            id,
            buffer_id: None,
            width: 1,
            height: 1,
            rgba: Seq::empty(),
            output_ids: Set::empty(),
            buffer_kind: None,
            capture_error: None,
            pending_acquire: None,
            pending_release: None,
            last_acquire: None,
            last_release: None,
            damage: Seq::empty(),
            commit_serial: 0,
            has_committed_buffer: false,
            xdg_configure_seen: false,
            xdg_configure_acked: false,
            viewport_destination: None,
        }
    }

    /// The acquire point in force, or else the one to come.
    pub open spec fn acquire(self) -> Option<TrackedSyncPoint> {
        match self.last_acquire {
            Some(point) => Some(point),
            None => self.pending_acquire,
        }
    }

    /// The release point in force, or else the one to come.
    pub open spec fn release(self) -> Option<TrackedSyncPoint> {
        match self.last_release {
            Some(point) => Some(point),
            None => self.pending_release,
        }
    }

    /// The explicit synchronisation of the surface, if it has any.
    pub open spec fn sync_text(self) -> Option<Seq<char>> {
        match (self.acquire(), self.release()) {
            (Some(acquire), Some(release)) => Some(
                sync_point_text("acquire"@, acquire) + ", "@ + sync_point_text(
                    "release"@,
                    release,
                ),
            ),
            (Some(acquire), None) => Some(sync_point_text("acquire"@, acquire)),
            (None, Some(release)) => Some(sync_point_text("release"@, release)),
            (None, None) => None,
        }
    }

    /// How well a surface does as the one that shows a window: one with pixels
    /// before one without, then the larger, then the one committed last.
    pub open spec fn beats(self, other: Self) -> bool {
        let area = self.width * self.height;
        let other_area = other.width * other.height;
        if self.has_committed_buffer != other.has_committed_buffer {
            self.has_committed_buffer
        } else if area != other_area {
            area > other_area
        } else {
            self.commit_serial > other.commit_serial
        }
    }
}

impl TrackedSurface {
    /// A surface that nothing has been done to.
    pub fn new(id: u32) -> (surface: Self)
        ensures
            surface@ == SurfaceView::fresh(id),
    {
        TrackedSurface {
            id,
            buffer_id: None,
            width: 1,
            height: 1,
            rgba: Vec::new(),
            output_ids: BTreeSet::new(),
            buffer_kind: None,
            capture_error: None,
            pending_acquire: None,
            pending_release: None,
            last_acquire: None,
            last_release: None,
            damage: Vec::new(),
            commit_serial: 0,
            has_committed_buffer: false,
            xdg_configure_seen: false,
            xdg_configure_acked: false,
            viewport_destination: None,
        }
    }

    /// The explicit synchronisation of the surface, if it has any.
    pub fn sync_state(&self) -> (state: Option<String>)
        ensures
            text::optional(state) == self@.sync_text(),
    {
        let acquire = match self.last_acquire {
            Some(point) => Some(point),
            None => self.pending_acquire,
        };
        let release = match self.last_release {
            Some(point) => Some(point),
            None => self.pending_release,
        };
        match (acquire, release) {
            (Some(acquire), Some(release)) => {
                let mut state = format_sync_point("acquire", acquire);
                state.append(", ");
                state.append(format_sync_point("release", release).as_str());
                Some(state)
            },
            (Some(acquire), None) => Some(format_sync_point("acquire", acquire)),
            (None, Some(release)) => Some(format_sync_point("release", release)),
            (None, None) => None,
        }
    }

    /// Whether this surface does better than another as the one that shows a
    /// window.
    pub fn outranks(&self, other: &TrackedSurface) -> (better: bool)
        ensures
            better == self@.beats(other@),
    {
        proof {
            product_fits(self.width, self.height);
            product_fits(other.width, other.height);
        }
        let area: u64 = self.width as u64 * self.height as u64;
        let other_area: u64 = other.width as u64 * other.height as u64;
        if self.has_committed_buffer != other.has_committed_buffer {
            self.has_committed_buffer
        } else if area != other_area {
            area > other_area
        } else {
            self.commit_serial > other.commit_serial
        }
    }

    /// Notes that the surface is on an output.
    pub fn enter_output(&mut self, output_id: u32)
        ensures
            final(self)@ == (SurfaceView {
                output_ids: old(self)@.output_ids.insert(output_id),
                ..old(self)@
            }),
    {
        self.output_ids.insert(output_id);
    }

    /// Notes that the surface left an output.
    pub fn leave_output(&mut self, output_id: u32)
        ensures
            final(self)@ == (SurfaceView {
                output_ids: old(self)@.output_ids.remove(output_id),
                ..old(self)@
            }),
    {
        self.output_ids.remove(&output_id);
    }

    /// On how many outputs the surface is.
    pub fn output_count(&self) -> (count: usize)
        ensures
            count == self@.output_ids.len(),
    {
        self.output_ids.len()
    }
}

proof fn product_fits(a: u32, b: u32)
    ensures
        0 <= a * b <= 0xffff_ffff * 0xffff_ffff,
{
    assert(0 <= a * b <= 0xffff_ffff * 0xffff_ffff) by (nonlinear_arith)
        requires
            0 <= a <= 0xffff_ffff,
            0 <= b <= 0xffff_ffff,
    ;
}

/// A window. Its name is that of the client with the window's number.
#[derive(Debug, PartialEq, Eq)]
pub struct TrackedWindow {
    /// The surface whose pixels are captured.
    pub wl_surface_id: u32,
    /// The surface that has the window's role and gets its input.
    pub input_surface_id: u32,
    pub xdg_surface_id: Option<u32>,
    pub xdg_toplevel_id: Option<u32>,
    pub title: Option<String>,
    pub app_id: Option<String>,
    pub width: u32,
    pub height: u32,
    pub mapped: bool,
    pub focused: bool,
    pub commit_serial: u64,
    pub output_count: usize,
}

/// The value of a window.
#[verifier::ext_equal]
pub struct WindowView {
    pub wl_surface_id: u32,
    pub input_surface_id: u32,
    pub xdg_surface_id: Option<u32>,
    pub xdg_toplevel_id: Option<u32>,
    pub title: Option<Seq<char>>,
    pub app_id: Option<Seq<char>>,
    pub width: u32,
    pub height: u32,
    pub mapped: bool,
    pub focused: bool,
    pub commit_serial: u64,
    pub output_count: nat,
}

impl View for TrackedWindow {
    type V = WindowView;

    open spec fn view(&self) -> WindowView {
        WindowView {
            wl_surface_id: self.wl_surface_id,
            input_surface_id: self.input_surface_id,
            xdg_surface_id: self.xdg_surface_id,
            xdg_toplevel_id: self.xdg_toplevel_id,
            title: text::optional(self.title),
            app_id: text::optional(self.app_id),
            width: self.width,
            height: self.height,
            mapped: self.mapped,
            focused: self.focused,
            commit_serial: self.commit_serial,
            output_count: self.output_count as nat,
        }
    }
}

/// What a caller is told of a window.
#[derive(Debug, PartialEq, Eq)]
pub struct GuiWindowInfo {
    pub window_id: String,
    pub title: Option<String>,
    pub app_id: Option<String>,
    pub width: u32,
    pub height: u32,
    pub mapped: bool,
    pub focused: bool,
    pub commit_serial: u64,
    pub on_capture_output: bool,
    pub capture_output_count: usize,
    pub on_backend_output: bool,
    pub backend_output_count: usize,
    pub buffer_kind: Option<String>,
    pub sync_state: Option<String>,
    pub capturable: bool,
    pub capture_error: Option<String>,
    pub render_surface_id: u32,
    pub input_surface_id: u32,
    pub capture_details: Option<String>,
}

/// The value of what a caller is told of a window.
#[verifier::ext_equal]
pub struct WindowInfoView {
    pub window_id: Seq<char>,
    pub title: Option<Seq<char>>,
    pub app_id: Option<Seq<char>>,
    pub width: u32,
    pub height: u32,
    pub mapped: bool,
    pub focused: bool,
    pub commit_serial: u64,
    pub on_capture_output: bool,
    pub capture_output_count: nat,
    pub on_backend_output: bool,
    pub backend_output_count: nat,
    pub buffer_kind: Option<Seq<char>>,
    pub sync_state: Option<Seq<char>>,
    pub capturable: bool,
    pub capture_error: Option<Seq<char>>,
    pub render_surface_id: u32,
    pub input_surface_id: u32,
    pub capture_details: Option<Seq<char>>,
}

impl View for GuiWindowInfo {
    type V = WindowInfoView;

    open spec fn view(&self) -> WindowInfoView {
        WindowInfoView {
            window_id: self.window_id@,
            title: text::optional(self.title),
            app_id: text::optional(self.app_id),
            width: self.width,
            height: self.height,
            mapped: self.mapped,
            focused: self.focused,
            commit_serial: self.commit_serial,
            on_capture_output: self.on_capture_output,
            capture_output_count: self.capture_output_count as nat,
            on_backend_output: self.on_backend_output,
            backend_output_count: self.backend_output_count as nat,
            buffer_kind: text::optional(self.buffer_kind),
            sync_state: text::optional(self.sync_state),
            capturable: self.capturable,
            capture_error: text::optional(self.capture_error),
            render_surface_id: self.render_surface_id,
            input_surface_id: self.input_surface_id,
            capture_details: text::optional(self.capture_details),
        }
    }
}

/// The values of a list of windows.
pub open spec fn info_values(infos: Seq<GuiWindowInfo>) -> Seq<WindowInfoView> {
    infos.map_values(|info: GuiWindowInfo| info@)
}

/// Copies what a caller is told of a window.
pub fn copy_info(info: &GuiWindowInfo) -> (copy: GuiWindowInfo)
    ensures
        copy@ == info@,
{
    GuiWindowInfo {
        window_id: info.window_id.clone(),
        title: copy_text(&info.title),
        app_id: copy_text(&info.app_id),
        width: info.width,
        height: info.height,
        mapped: info.mapped,
        focused: info.focused,
        commit_serial: info.commit_serial,
        on_capture_output: info.on_capture_output,
        capture_output_count: info.capture_output_count,
        on_backend_output: info.on_backend_output,
        backend_output_count: info.backend_output_count,
        buffer_kind: copy_text(&info.buffer_kind),
        sync_state: copy_text(&info.sync_state),
        capturable: info.capturable,
        capture_error: copy_text(&info.capture_error),
        render_surface_id: info.render_surface_id,
        input_surface_id: info.input_surface_id,
        capture_details: copy_text(&info.capture_details),
    }
}

/// Where a click or a pointer motion goes.
#[derive(Debug, PartialEq, Eq)]
pub struct PointerClickTarget {
    pub window_id: String,
    pub surface_id: u32,
    pub screenshot_x: i64,
    pub screenshot_y: i64,
    pub surface_x: i64,
    pub surface_y: i64,
}

/// The value of where a click goes.
#[verifier::ext_equal]
pub struct TargetView {
    pub window_id: Seq<char>,
    pub surface_id: u32,
    pub screenshot_x: i64,
    pub screenshot_y: i64,
    pub surface_x: i64,
    pub surface_y: i64,
}

impl View for PointerClickTarget {
    type V = TargetView;

    open spec fn view(&self) -> TargetView {
        TargetView {
            window_id: self.window_id@,
            surface_id: self.surface_id,
            screenshot_x: self.screenshot_x,
            screenshot_y: self.screenshot_y,
            surface_x: self.surface_x,
            surface_y: self.surface_y,
        }
    }
}

} // verus!
