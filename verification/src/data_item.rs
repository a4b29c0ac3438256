//! The validated OHLCV price bar and its accumulating builder.

use vstd::prelude::*;
use crate::errors::TaError;
use crate::fixed::Fixed;

verus! {

/// The invariant every built bar satisfies: the low is no higher than any
/// other price, the high no lower, and volume is non-negative.
pub open spec fn bar_valid(
    open: Fixed,
    high: Fixed,
    low: Fixed,
    close: Fixed,
    volume: Fixed,
) -> bool {
    &&& low.micros() <= open.micros()
    &&& low.micros() <= close.micros()
    &&& low.micros() <= high.micros()
    &&& high.micros() >= open.micros()
    &&& high.micros() >= close.micros()
    &&& volume.micros() >= 0
}

/// One immutable OHLCV observation; constructed only through the builder,
/// so every value of this type satisfies `bar_valid`.
#[derive(Clone, Copy, PartialEq, Eq, Structural, Debug)]
pub struct DataItem {
    open: Fixed,
    high: Fixed,
    low: Fixed,
    close: Fixed,
    volume: Fixed,
}

impl DataItem {
    pub closed spec fn spec_open(self) -> Fixed {
        self.open
    }

    pub closed spec fn spec_high(self) -> Fixed {
        self.high
    }

    pub closed spec fn spec_low(self) -> Fixed {
        self.low
    }

    pub closed spec fn spec_close(self) -> Fixed {
        self.close
    }

    pub closed spec fn spec_volume(self) -> Fixed {
        self.volume
    }

    /// The bar's fields satisfy the OHLC / volume invariant.
    pub open spec fn valid(self) -> bool {
        bar_valid(
            self.spec_open(),
            self.spec_high(),
            self.spec_low(),
            self.spec_close(),
            self.spec_volume(),
        )
    }

    /// A fresh builder with no field set yet.
    pub fn builder() -> (r: DataItemBuilder)
        ensures
            r.spec_open() is None,
            r.spec_high() is None,
            r.spec_low() is None,
            r.spec_close() is None,
            r.spec_volume() is None,
    {
        DataItemBuilder::new()
    }

    pub fn open(&self) -> (r: Fixed)
        ensures
            r == self.spec_open(),
    {
        self.open
    }

    pub fn high(&self) -> (r: Fixed)
        ensures
            r == self.spec_high(),
    {
        self.high
    }

    pub fn low(&self) -> (r: Fixed)
        ensures
            r == self.spec_low(),
    {
        self.low
    }

    pub fn close(&self) -> (r: Fixed)
        ensures
            r == self.spec_close(),
    {
        self.close
    }

    pub fn volume(&self) -> (r: Fixed)
        ensures
            r == self.spec_volume(),
    {
        self.volume
    }
}

/// Accumulates up to five named fields; a field set twice keeps the later
/// value. `build` is the single validating entry point.
pub struct DataItemBuilder {
    open: Option<Fixed>,
    high: Option<Fixed>,
    low: Option<Fixed>,
    close: Option<Fixed>,
    volume: Option<Fixed>,
}

impl DataItemBuilder {
    pub closed spec fn spec_open(self) -> Option<Fixed> {
        self.open
    }

    pub closed spec fn spec_high(self) -> Option<Fixed> {
        self.high
    }

    pub closed spec fn spec_low(self) -> Option<Fixed> {
        self.low
    }

    pub closed spec fn spec_close(self) -> Option<Fixed> {
        self.close
    }

    pub closed spec fn spec_volume(self) -> Option<Fixed> {
        self.volume
    }

    /// Every field has been set at least once.
    pub open spec fn is_complete(self) -> bool {
        &&& self.spec_open() is Some
        &&& self.spec_high() is Some
        &&& self.spec_low() is Some
        &&& self.spec_close() is Some
        &&& self.spec_volume() is Some
    }

    /// The set fields satisfy the OHLC / volume invariant.
    pub open spec fn is_valid(self) -> bool
        recommends
            self.is_complete(),
    {
        bar_valid(
            self.spec_open()->0,
            self.spec_high()->0,
            self.spec_low()->0,
            self.spec_close()->0,
            self.spec_volume()->0,
        )
    }

    /// The bar a complete, valid builder produces.
    pub closed spec fn built_item(self) -> DataItem
        recommends
            self.is_complete(),
    {
        DataItem {
            open: self.open->0,
            high: self.high->0,
            low: self.low->0,
            close: self.close->0,
            volume: self.volume->0,
        }
    }

    pub fn new() -> (r: Self)
        ensures
            r.spec_open() is None,
            r.spec_high() is None,
            r.spec_low() is None,
            r.spec_close() is None,
            r.spec_volume() is None,
    {
        Self { open: None, high: None, low: None, close: None, volume: None }
    }

    pub fn open(self, val: Fixed) -> (r: Self)
        ensures
            r.spec_open() == Some(val),
            r.spec_high() == self.spec_high(),
            r.spec_low() == self.spec_low(),
            r.spec_close() == self.spec_close(),
            r.spec_volume() == self.spec_volume(),
    {
        Self { open: Some(val), ..self }
    }

    pub fn high(self, val: Fixed) -> (r: Self)
        ensures
            r.spec_high() == Some(val),
            r.spec_open() == self.spec_open(),
            r.spec_low() == self.spec_low(),
            r.spec_close() == self.spec_close(),
            r.spec_volume() == self.spec_volume(),
    {
        Self { high: Some(val), ..self }
    }

    pub fn low(self, val: Fixed) -> (r: Self)
        ensures
            r.spec_low() == Some(val),
            r.spec_open() == self.spec_open(),
            r.spec_high() == self.spec_high(),
            r.spec_close() == self.spec_close(),
            r.spec_volume() == self.spec_volume(),
    {
        Self { low: Some(val), ..self }
    }

    pub fn close(self, val: Fixed) -> (r: Self)
        ensures
            r.spec_close() == Some(val),
            r.spec_open() == self.spec_open(),
            r.spec_high() == self.spec_high(),
            r.spec_low() == self.spec_low(),
            r.spec_volume() == self.spec_volume(),
    {
        Self { close: Some(val), ..self }
    }

    pub fn volume(self, val: Fixed) -> (r: Self)
        ensures
            r.spec_volume() == Some(val),
            r.spec_open() == self.spec_open(),
            r.spec_high() == self.spec_high(),
            r.spec_low() == self.spec_low(),
            r.spec_close() == self.spec_close(),
    {
        Self { volume: Some(val), ..self }
    }

    /// Finalize: `DataItemIncomplete` exactly when some field was never
    /// set, `DataItemInvalid` exactly when all are set but violate the
    /// invariant, and otherwise the bar made of the set fields.
    pub fn build(self) -> (r: Result<DataItem, TaError>)
        ensures
            !self.is_complete() ==> r == Err::<DataItem, TaError>(TaError::DataItemIncomplete),
            self.is_complete() && !self.is_valid() ==> r == Err::<DataItem, TaError>(
                TaError::DataItemInvalid,
            ),
            self.is_complete() && self.is_valid() ==> r == Ok::<DataItem, TaError>(
                self.built_item(),
            ),
            r matches Ok(item) ==> {
                &&& item.valid()
                &&& item.spec_open() == self.spec_open()->0
                &&& item.spec_high() == self.spec_high()->0
                &&& item.spec_low() == self.spec_low()->0
                &&& item.spec_close() == self.spec_close()->0
                &&& item.spec_volume() == self.spec_volume()->0
            },
    {
        if let (Some(open), Some(high), Some(low), Some(close), Some(volume)) = (
            self.open,
            self.high,
            self.low,
            self.close,
            self.volume,
        ) {
            let ok = low.to_micros() <= open.to_micros() && low.to_micros() <= close.to_micros()
                && low.to_micros() <= high.to_micros() && high.to_micros() >= open.to_micros()
                && high.to_micros() >= close.to_micros() && volume.to_micros() >= 0;
            if ok {
                Ok(DataItem { open, high, low, close, volume })
            } else {
                Err(TaError::DataItemInvalid)
            }
        } else {
            Err(TaError::DataItemIncomplete)
        }
    }
}

} // verus!
