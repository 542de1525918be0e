//! The vocabulary of the command set: styles, modes and the option values
//! of barcodes and 2D codes, each with the number the device knows it by.

use vstd::prelude::*;
use crate::errors::PrinterError;

verus! {

/// Underlining of text.
#[derive(Debug, Clone, Copy, PartialEq, Eq, Structural)]
pub enum UnderlineMode {
    /// No underline.
    Off,
    /// One dot thick.
    Single,
    /// Two dots thick.
    Double,
}

/// Where a line stands between the margins.
#[derive(Debug, Clone, Copy, PartialEq, Eq, Structural)]
pub enum JustifyMode {
    /// Against the left margin.
    LEFT,
    /// In the middle.
    CENTER,
    /// Against the right margin.
    RIGHT,
}

/// The device's character fonts.
#[derive(Debug, Clone, Copy, PartialEq, Eq, Structural)]
pub enum Font {
    /// Font A.
    A,
    /// Font B.
    B,
    /// Font C.
    C,
}

/// The connector pin to which a drawer kick pulse goes.
#[derive(Debug, Clone, Copy, PartialEq, Eq, Structural)]
pub enum CashDrawer {
    /// Pin 2.
    Pin2,
    /// Pin 5.
    Pin5,
}

/// How emitted bytes are rendered for diagnostics.
#[derive(Debug, Clone, Copy, PartialEq, Eq, Structural)]
pub enum DebugMode {
    /// As decimal numbers.
    Dec,
    /// As two hexadecimal digits each.
    Hex,
}

/// The font of the text printed with a barcode.
#[derive(Debug, Clone, Copy, PartialEq, Eq, Structural)]
pub enum BarcodeFont {
    /// Font A.
    A,
    /// Font B.
    B,
}

/// Where the text of a barcode is printed.
#[derive(Debug, Clone, Copy, PartialEq, Eq, Structural)]
pub enum BarcodePosition {
    /// Nowhere.
    Hidden,
    /// Above the bars.
    Above,
    /// Below the bars.
    Below,
    /// Above and below the bars.
    Both,
}

/// The QR code models.
#[derive(Debug, Clone, Copy, PartialEq, Eq, Structural)]
pub enum QRCodeModel {
    /// Model 1.
    Model1,
    /// Model 2.
    Model2,
    /// Micro QR code.
    Micro,
}

/// The error correction levels of a QR code.
#[derive(Debug, Clone, Copy, PartialEq, Eq, Structural)]
pub enum QRCodeCorrectionLevel {
    /// About 7% of the symbol can be restored.
    L,
    /// About 15%.
    M,
    /// About 25%.
    Q,
    /// About 30%.
    H,
}

/// The scaling the device applies to a raster image.
#[derive(Debug, Clone, Copy, PartialEq, Eq, Structural)]
pub enum BitImageSize {
    /// One printed dot per image dot.
    Normal,
    /// Twice as wide.
    DoubleWidth,
    /// Twice as high.
    DoubleHeight,
    /// Twice as wide and twice as high.
    Quadruple,
}

impl UnderlineMode {
    /// The number by which the device knows the mode.
    pub open spec fn code(self) -> u8 {
        match self {
            UnderlineMode::Off => 0,
            UnderlineMode::Single => 1,
            UnderlineMode::Double => 2,
        }
    }

    /// The number by which the device knows the mode.
    pub fn byte(self) -> (b: u8)
        ensures
            b == self.code(),
    {
        match self {
            UnderlineMode::Off => 0,
            UnderlineMode::Single => 1,
            UnderlineMode::Double => 2,
        }
    }
}

impl JustifyMode {
    /// The number by which the device knows the mode.
    pub open spec fn code(self) -> u8 {
        match self {
            JustifyMode::LEFT => 0,
            JustifyMode::CENTER => 1,
            JustifyMode::RIGHT => 2,
        }
    }

    /// The number by which the device knows the mode.
    pub fn byte(self) -> (b: u8)
        ensures
            b == self.code(),
    {
        match self {
            JustifyMode::LEFT => 0,
            JustifyMode::CENTER => 1,
            JustifyMode::RIGHT => 2,
        }
    }
}

impl Font {
    /// The number by which the device knows the font.
    pub open spec fn code(self) -> u8 {
        match self {
            Font::A => 0,
            Font::B => 1,
            Font::C => 2,
        }
    }

    /// The number by which the device knows the font.
    pub fn byte(self) -> (b: u8)
        ensures
            b == self.code(),
    {
        match self {
            Font::A => 0,
            Font::B => 1,
            Font::C => 2,
        }
    }
}

impl CashDrawer {
    /// The number by which the device knows the pin.
    pub open spec fn code(self) -> u8 {
        match self {
            CashDrawer::Pin2 => 0,
            CashDrawer::Pin5 => 1,
        }
    }

    /// The number by which the device knows the pin.
    pub fn byte(self) -> (b: u8)
        ensures
            b == self.code(),
    {
        match self {
            CashDrawer::Pin2 => 0,
            CashDrawer::Pin5 => 1,
        }
    }
}

impl BarcodeFont {
    /// The number by which the device knows the font.
    pub open spec fn code(self) -> u8 {
        match self {
            BarcodeFont::A => 0,
            BarcodeFont::B => 1,
        }
    }

    /// The number by which the device knows the font.
    pub fn byte(self) -> (b: u8)
        ensures
            b == self.code(),
    {
        match self {
            BarcodeFont::A => 0,
            BarcodeFont::B => 1,
        }
    }
}

impl BarcodePosition {
    /// The number by which the device knows the position.
    pub open spec fn code(self) -> u8 {
        match self {
            BarcodePosition::Hidden => 0,
            BarcodePosition::Above => 1,
            BarcodePosition::Below => 2,
            BarcodePosition::Both => 3,
        }
    }

    /// The number by which the device knows the position.
    pub fn byte(self) -> (b: u8)
        ensures
            b == self.code(),
    {
        match self {
            BarcodePosition::Hidden => 0,
            BarcodePosition::Above => 1,
            BarcodePosition::Below => 2,
            BarcodePosition::Both => 3,
        }
    }
}

impl QRCodeModel {
    /// The number by which the device knows the model.
    pub open spec fn code(self) -> u8 {
        match self {
            QRCodeModel::Model1 => 49,
            QRCodeModel::Model2 => 50,
            QRCodeModel::Micro => 51,
        }
    }

    /// The number by which the device knows the model.
    pub fn byte(self) -> (b: u8)
        ensures
            b == self.code(),
    {
        match self {
            QRCodeModel::Model1 => 49,
            QRCodeModel::Model2 => 50,
            QRCodeModel::Micro => 51,
        }
    }
}

impl QRCodeCorrectionLevel {
    /// The number by which the device knows the level.
    pub open spec fn code(self) -> u8 {
        match self {
            QRCodeCorrectionLevel::L => 48,
            QRCodeCorrectionLevel::M => 49,
            QRCodeCorrectionLevel::Q => 50,
            QRCodeCorrectionLevel::H => 51,
        }
    }

    /// The number by which the device knows the level.
    pub fn byte(self) -> (b: u8)
        ensures
            b == self.code(),
    {
        match self {
            QRCodeCorrectionLevel::L => 48,
            QRCodeCorrectionLevel::M => 49,
            QRCodeCorrectionLevel::Q => 50,
            QRCodeCorrectionLevel::H => 51,
        }
    }
}

impl BitImageSize {
    /// The number by which the device knows the scaling.
    pub open spec fn code(self) -> u8 {
        match self {
            BitImageSize::Normal => 0,
            BitImageSize::DoubleWidth => 1,
            BitImageSize::DoubleHeight => 2,
            BitImageSize::Quadruple => 3,
        }
    }

    /// The number by which the device knows the scaling.
    pub fn byte(self) -> (b: u8)
        ensures
            b == self.code(),
    {
        match self {
            BitImageSize::Normal => 0,
            BitImageSize::DoubleWidth => 1,
            BitImageSize::DoubleHeight => 2,
            BitImageSize::Quadruple => 3,
        }
    }
}

/// The narrowest bar module a device prints, in dots.
pub const MIN_BARCODE_WIDTH: u8 = 2;

/// The widest bar module a device prints, in dots.
pub const MAX_BARCODE_WIDTH: u8 = 6;

/// How a barcode is printed: the width of its narrowest bar and its height,
/// both in dots, and the font and place of its text.
#[derive(Debug, Clone, Copy, PartialEq, Eq)]
pub struct BarcodeOption {
    width: u8,
    height: u8,
    font: BarcodeFont,
    position: BarcodePosition,
}

impl BarcodeOption {
    #[verifier::type_invariant]
    spec fn in_range(self) -> bool {
        MIN_BARCODE_WIDTH <= self.width <= MAX_BARCODE_WIDTH && 1 <= self.height
    }

    /// The width of the narrowest bar, in dots.
    pub closed spec fn spec_width(self) -> u8 {
        self.width
    }

    /// The height of the bars, in dots.
    pub closed spec fn spec_height(self) -> u8 {
        self.height
    }

    /// The font of the text.
    pub closed spec fn spec_font(self) -> BarcodeFont {
        self.font
    }

    /// The place of the text.
    pub closed spec fn spec_position(self) -> BarcodePosition {
        self.position
    }

    /// The option used where none is given.
    pub closed spec fn standard() -> BarcodeOption {
        BarcodeOption {
            width: 3,
            height: 162,
            font: BarcodeFont::A,
            position: BarcodePosition::Below,
        }
    }

    /// What a device can print: bars from two to six dots wide and at
    /// least one dot high.
    pub open spec fn accepts(width: u8, height: u8) -> bool {
        MIN_BARCODE_WIDTH <= width <= MAX_BARCODE_WIDTH && 1 <= height
    }

    /// An option with the given values; a width or height that the device
    /// does not document is rejected with `InvalidOption`.
    pub fn new(width: u8, height: u8, font: BarcodeFont, position: BarcodePosition) -> (result:
        Result<BarcodeOption, PrinterError>)
        ensures
            match result {
                Ok(option) => BarcodeOption::accepts(width, height) && option.spec_width() == width
                    && option.spec_height() == height && option.spec_font() == font
                    && option.spec_position() == position,
                Err(e) => !BarcodeOption::accepts(width, height) && e
                    == PrinterError::InvalidOption,
            },
    {
        if width < MIN_BARCODE_WIDTH || width > MAX_BARCODE_WIDTH || height < 1 {
            Err(PrinterError::InvalidOption)
        } else {
            Ok(BarcodeOption { width, height, font, position })
        }
    }

    /// The width of the narrowest bar, in dots.
    pub fn width(&self) -> (width: u8)
        ensures
            width == self.spec_width(),
            BarcodeOption::accepts(width, self.spec_height()),
    {
        proof {
            use_type_invariant(self);
        }
        self.width
    }

    /// The height of the bars, in dots.
    pub fn height(&self) -> (height: u8)
        ensures
            height == self.spec_height(),
            BarcodeOption::accepts(self.spec_width(), height),
    {
        proof {
            use_type_invariant(self);
        }
        self.height
    }

    /// The font of the text.
    pub fn font(&self) -> (font: BarcodeFont)
        ensures
            font == self.spec_font(),
    {
        self.font
    }

    /// The place of the text.
    pub fn position(&self) -> (position: BarcodePosition)
        ensures
            position == self.spec_position(),
    {
        self.position
    }
}

impl Default for BarcodeOption {
    /// Bars three dots wide and 162 dots high, with the text in font A
    /// below them.
    fn default() -> (option: BarcodeOption)
        ensures
            option == BarcodeOption::standard(),
            option.spec_width() == 3,
            option.spec_height() == 162,
            option.spec_font() == BarcodeFont::A,
            option.spec_position() == BarcodePosition::Below,
    {
        BarcodeOption {
            width: 3,
            height: 162,
            font: BarcodeFont::A,
            position: BarcodePosition::Below,
        }
    }
}

/// The smallest QR code module, in dots.
pub const MIN_QRCODE_SIZE: u8 = 1;

/// The largest QR code module, in dots.
pub const MAX_QRCODE_SIZE: u8 = 16;

/// How a QR code is printed: its model, the size of a module in dots, and
/// its error correction level.
#[derive(Debug, Clone, Copy, PartialEq, Eq)]
pub struct QRCodeOption {
    model: QRCodeModel,
    size: u8,
    level: QRCodeCorrectionLevel,
}

impl QRCodeOption {
    #[verifier::type_invariant]
    spec fn in_range(self) -> bool {
        MIN_QRCODE_SIZE <= self.size <= MAX_QRCODE_SIZE
    }

    /// The model.
    pub closed spec fn spec_model(self) -> QRCodeModel {
        self.model
    }

    /// The size of a module, in dots.
    pub closed spec fn spec_size(self) -> u8 {
        self.size
    }

    /// The error correction level.
    pub closed spec fn spec_level(self) -> QRCodeCorrectionLevel {
        self.level
    }

    /// The option used where none is given.
    pub closed spec fn standard() -> QRCodeOption {
        QRCodeOption { model: QRCodeModel::Model2, size: 4, level: QRCodeCorrectionLevel::M }
    }

    /// An option with the given values; a module size outside one to
    /// sixteen dots is rejected with `InvalidOption`.
    pub fn new(model: QRCodeModel, size: u8, level: QRCodeCorrectionLevel) -> (result: Result<
        QRCodeOption,
        PrinterError,
    >)
        ensures
            match result {
                Ok(option) => MIN_QRCODE_SIZE <= size <= MAX_QRCODE_SIZE && option.spec_model()
                    == model && option.spec_size() == size && option.spec_level() == level,
                Err(e) => !(MIN_QRCODE_SIZE <= size <= MAX_QRCODE_SIZE) && e
                    == PrinterError::InvalidOption,
            },
    {
        if size < MIN_QRCODE_SIZE || size > MAX_QRCODE_SIZE {
            Err(PrinterError::InvalidOption)
        } else {
            Ok(QRCodeOption { model, size, level })
        }
    }

    /// The model.
    pub fn model(&self) -> (model: QRCodeModel)
        ensures
            model == self.spec_model(),
    {
        self.model
    }

    /// The size of a module, in dots.
    pub fn size(&self) -> (size: u8)
        ensures
            size == self.spec_size(),
            MIN_QRCODE_SIZE <= size <= MAX_QRCODE_SIZE,
    {
        proof {
            use_type_invariant(self);
        }
        self.size
    }

    /// The error correction level.
    pub fn level(&self) -> (level: QRCodeCorrectionLevel)
        ensures
            level == self.spec_level(),
    {
        self.level
    }
}

impl Default for QRCodeOption {
    /// Model 2, modules four dots wide, level M.
    fn default() -> (option: QRCodeOption)
        ensures
            option == QRCodeOption::standard(),
            option.spec_model() == QRCodeModel::Model2,
            option.spec_size() == 4,
            option.spec_level() == QRCodeCorrectionLevel::M,
    {
        QRCodeOption { model: QRCodeModel::Model2, size: 4, level: QRCodeCorrectionLevel::M }
    }
}

} // verus!
