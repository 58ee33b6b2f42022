//! Generation options of a request.
//!
//! A temperature is a JSON number. The library never computes with it: it carries the number
//! as the document that the request will hold, from the caller to the wire and back.

use vstd::prelude::*;
use crate::decode::{
    i32_field, number_field, read_i32, read_number, read_u32, u32_field, DecodeError,
};
use crate::encode::{
    holds_integer, holds_number, holds_value, put_optional_integer, put_optional_number,
    put_optional_value, wide_i32, wide_u32,
};
use crate::json::{
    duplicate, empty_object, is_number, is_object, json_is_null, json_is_number, json_is_object,
    json_member,
};

verus! {

/// A copy of an optional document.
pub fn opt_value_clone(value: &Option<serde_json::Value>) -> (r: Option<serde_json::Value>)
    ensures
        r == *value,
{
    match value {
        Some(v) => Some(duplicate(v)),
        None => None,
    }
}

/// What a set of options holds.
pub struct OllamaOptionsView {
    /// The size of the context window, in tokens.
    pub num_ctx: Option<u32>,
    /// The sampling temperature, a JSON number.
    pub temperature: Option<serde_json::Value>,
    /// The seed of the random generator.
    pub seed: Option<u32>,
}

/// The options of a session: context window, temperature and seed, each optional.
#[derive(Debug)]
pub struct OllamaOptions {
    num_ctx: Option<u32>,
    temperature: Option<serde_json::Value>,
    seed: Option<u32>,
}

impl View for OllamaOptions {
    type V = OllamaOptionsView;

    closed spec fn view(&self) -> OllamaOptionsView {
        OllamaOptionsView { num_ctx: self.num_ctx, temperature: self.temperature, seed: self.seed }
    }
}

/// Options of which none is set.
pub open spec fn no_options() -> OllamaOptionsView {
    OllamaOptionsView { num_ctx: None, temperature: None, seed: None }
}

/// Whether the temperature, where there is one, is a number.
pub open spec fn is_temperature(temperature: Option<serde_json::Value>) -> bool {
    temperature matches Some(t) ==> json_is_number(t) && !json_is_null(t)
}

/// The options after a temperature has been offered: a number is taken, anything else
/// leaves the options as they are.
pub open spec fn with_temperature(
    options: OllamaOptionsView,
    temperature: serde_json::Value,
) -> OllamaOptionsView {
    if json_is_number(temperature) {
        OllamaOptionsView { temperature: Some(temperature), ..options }
    } else {
        options
    }
}

/// Whether a document is the wire form of options: an object that holds each option under
/// its name, only where it is set, and that holds nothing else.
pub open spec fn is_options_json(doc: serde_json::Value, options: OllamaOptionsView) -> bool {
    &&& json_is_object(doc)
    &&& holds_number(doc, "num_ctx"@, wide_u32(options.num_ctx))
    &&& holds_value(doc, "temperature"@, options.temperature)
    &&& holds_number(doc, "seed"@, wide_u32(options.seed))
    &&& forall|k: Seq<char>|
        k != "num_ctx"@ && k != "temperature"@ && k != "seed"@ ==> (#[trigger] json_member(doc, k))
            is None
}

/// The options that a JSON document describes. The document is an object; `num_ctx` and
/// `seed` hold counts of 32 bits and `temperature` a number, where they are present.
pub open spec fn options_of(doc: serde_json::Value) -> Result<OllamaOptionsView, DecodeError> {
    if !json_is_object(doc) {
        Err(DecodeError::NotAnObject)
    } else if u32_field(doc, "num_ctx"@) is Err || number_field(doc, "temperature"@) is Err
        || u32_field(doc, "seed"@) is Err {
        Err(DecodeError::InvalidField)
    } else {
        Ok(
            OllamaOptionsView {
                num_ctx: u32_field(doc, "num_ctx"@)->Ok_0,
                temperature: number_field(doc, "temperature"@)->Ok_0,
                seed: u32_field(doc, "seed"@)->Ok_0,
            },
        )
    }
}

/// The names of the options differ from one another.
proof fn lemma_option_keys()
    ensures
        "num_ctx"@.len() == 7 && "num_ctx"@[4] == 'c',
        "num_gpu"@.len() == 7 && "num_gpu"@[4] == 'g',
        "num_predict"@.len() == 11 && "num_predict"@[0] == 'n',
        "temperature"@.len() == 11 && "temperature"@[0] == 't',
        "seed"@.len() == 4,
{
    reveal_strlit("num_ctx");
    reveal_strlit("num_gpu");
    reveal_strlit("num_predict");
    reveal_strlit("temperature");
    reveal_strlit("seed");
}

/// The wire form of options reads back as those options, where the temperature is a number.
pub proof fn lemma_options_json_reads_back(doc: serde_json::Value, options: OllamaOptionsView)
    requires
        is_options_json(doc, options),
        is_temperature(options.temperature),
    ensures
        options_of(doc) == Ok::<OllamaOptionsView, DecodeError>(options),
{
    assert(u32_field(doc, "num_ctx"@) == Ok::<Option<u32>, DecodeError>(options.num_ctx));
    assert(number_field(doc, "temperature"@) == Ok::<Option<serde_json::Value>, DecodeError>(
        options.temperature,
    ));
    assert(u32_field(doc, "seed"@) == Ok::<Option<u32>, DecodeError>(options.seed));
}

impl Clone for OllamaOptions {
    fn clone(&self) -> (r: Self)
        ensures
            r@ == self@,
    {
        proof {
            use_type_invariant(self);
        }
        OllamaOptions {
            num_ctx: self.num_ctx,
            temperature: opt_value_clone(&self.temperature),
            seed: self.seed,
        }
    }
}

impl OllamaOptions {
    #[verifier::type_invariant]
    spec fn temperature_is_a_number(self) -> bool {
        is_temperature(self.temperature)
    }

    /// Options of which none is set.
    pub fn new() -> (r: Self)
        ensures
            r@ == no_options(),
    {
        OllamaOptions { num_ctx: None, temperature: None, seed: None }
    }

    /// Reads options from a JSON document (see `options_of`).
    pub fn from_json(json: &serde_json::Value) -> (r: Result<Self, DecodeError>)
        ensures
            match r {
                Ok(options) => options_of(*json) == Ok::<OllamaOptionsView, DecodeError>(options@),
                Err(e) => options_of(*json) == Err::<OllamaOptionsView, DecodeError>(e),
            },
    {
        if !is_object(json) {
            return Err(DecodeError::NotAnObject);
        }
        let num_ctx = read_u32(json, "num_ctx");
        let temperature = read_number(json, "temperature");
        let seed = read_u32(json, "seed");
        match (num_ctx, temperature, seed) {
            (Ok(num_ctx), Ok(temperature), Ok(seed)) => Ok(
                OllamaOptions { num_ctx, temperature, seed },
            ),
            _ => Err(DecodeError::InvalidField),
        }
    }

    /// The wire form of the options (see `is_options_json`). It reads back as the options.
    pub fn to_json(&self) -> (r: serde_json::Value)
        ensures
            is_options_json(r, self@),
            is_temperature(self@.temperature),
            options_of(r) == Ok::<OllamaOptionsView, DecodeError>(self@),
            !json_is_null(r),
    {
        proof {
            lemma_option_keys();
            use_type_invariant(self);
        }
        let mut doc = empty_object();
        put_optional_number(
            &mut doc,
            "num_ctx",
            match self.num_ctx {
                Some(n) => Some(n as u64),
                None => None,
            },
        );
        put_optional_value(&mut doc, "temperature", opt_value_clone(&self.temperature));
        put_optional_number(
            &mut doc,
            "seed",
            match self.seed {
                Some(n) => Some(n as u64),
                None => None,
            },
        );
        proof {
            lemma_options_json_reads_back(doc, self@);
        }
        doc
    }

    /// The size of the context window.
    pub fn num_ctx(&self) -> (r: Option<u32>)
        ensures
            r == self@.num_ctx,
    {
        self.num_ctx
    }

    /// Sets the size of the context window.
    pub fn set_num_ctx(&mut self, num_ctx: u32) -> (r: &mut Self)
        ensures
            r@ == (OllamaOptionsView { num_ctx: Some(num_ctx), ..old(self)@ }),
            *final(self) == *final(r),
    {
        proof {
            use_type_invariant(&*self);
        }
        self.num_ctx = Some(num_ctx);
        self
    }

    /// The temperature: a JSON number.
    pub fn temperature(&self) -> (r: Option<&serde_json::Value>)
        ensures
            match r {
                Some(t) => self@.temperature == Some(*t) && json_is_number(*t),
                None => self@.temperature is None,
            },
    {
        proof {
            use_type_invariant(self);
        }
        self.temperature.as_ref()
    }

    /// Sets the temperature to the given JSON number. A document that is no number is not
    /// taken, and the options stay as they are.
    pub fn set_temperature(&mut self, temperature: serde_json::Value) -> (r: &mut Self)
        ensures
            r@ == with_temperature(old(self)@, temperature),
            *final(self) == *final(r),
    {
        if is_number(&temperature) {
            self.temperature = Some(temperature);
        }
        self
    }

    /// The seed of the random generator.
    pub fn seed(&self) -> (r: Option<u32>)
        ensures
            r == self@.seed,
    {
        self.seed
    }

    /// Sets the seed of the random generator.
    pub fn set_seed(&mut self, seed: u32) -> (r: &mut Self)
        ensures
            r@ == (OllamaOptionsView { seed: Some(seed), ..old(self)@ }),
            *final(self) == *final(r),
    {
        proof {
            use_type_invariant(&*self);
        }
        self.seed = Some(seed);
        self
    }
}

/// What a set of model options holds.
pub struct OllamaOptions2View {
    /// The size of the context window, in tokens.
    pub num_ctx: Option<i32>,
    /// The number of layers to run on the GPU.
    pub num_gpu: Option<i32>,
    /// The number of tokens to predict.
    pub num_predict: Option<i32>,
    /// The sampling temperature, a JSON number.
    pub temperature: Option<serde_json::Value>,
}

/// Options of a model, set one after the other: each setter takes the options and gives
/// them back with one more set.
#[derive(Debug)]
pub struct OllamaOptions2 {
    num_ctx: Option<i32>,
    num_gpu: Option<i32>,
    num_predict: Option<i32>,
    temperature: Option<serde_json::Value>,
}

impl View for OllamaOptions2 {
    type V = OllamaOptions2View;

    closed spec fn view(&self) -> OllamaOptions2View {
        OllamaOptions2View {
            num_ctx: self.num_ctx,
            num_gpu: self.num_gpu,
            num_predict: self.num_predict,
            temperature: self.temperature,
        }
    }
}

/// Model options of which none is set.
pub open spec fn no_model_options() -> OllamaOptions2View {
    OllamaOptions2View { num_ctx: None, num_gpu: None, num_predict: None, temperature: None }
}

/// Whether a document is the wire form of model options: an object that holds each option
/// under its name, only where it is set, and that holds nothing else.
pub open spec fn is_model_options_json(doc: serde_json::Value, options: OllamaOptions2View) -> bool {
    &&& json_is_object(doc)
    &&& holds_integer(doc, "num_ctx"@, wide_i32(options.num_ctx))
    &&& holds_integer(doc, "num_gpu"@, wide_i32(options.num_gpu))
    &&& holds_integer(doc, "num_predict"@, wide_i32(options.num_predict))
    &&& holds_value(doc, "temperature"@, options.temperature)
    &&& forall|k: Seq<char>|
        k != "num_ctx"@ && k != "num_gpu"@ && k != "num_predict"@ && k != "temperature"@ ==> (
        #[trigger] json_member(doc, k)) is None
}

/// The model options that a JSON document describes. The document is an object; `num_ctx`,
/// `num_gpu` and `num_predict` hold integers of 32 bits and `temperature` a number, where
/// they are present.
pub open spec fn model_options_of(doc: serde_json::Value) -> Result<
    OllamaOptions2View,
    DecodeError,
> {
    if !json_is_object(doc) {
        Err(DecodeError::NotAnObject)
    } else if i32_field(doc, "num_ctx"@) is Err || i32_field(doc, "num_gpu"@) is Err || i32_field(
        doc,
        "num_predict"@,
    ) is Err || number_field(doc, "temperature"@) is Err {
        Err(DecodeError::InvalidField)
    } else {
        Ok(
            OllamaOptions2View {
                num_ctx: i32_field(doc, "num_ctx"@)->Ok_0,
                num_gpu: i32_field(doc, "num_gpu"@)->Ok_0,
                num_predict: i32_field(doc, "num_predict"@)->Ok_0,
                temperature: number_field(doc, "temperature"@)->Ok_0,
            },
        )
    }
}

/// The wire form of model options reads back as those options, where the temperature is a
/// number.
pub proof fn lemma_model_options_json_reads_back(doc: serde_json::Value, options: OllamaOptions2View)
    requires
        is_model_options_json(doc, options),
        is_temperature(options.temperature),
    ensures
        model_options_of(doc) == Ok::<OllamaOptions2View, DecodeError>(options),
{
    assert(i32_field(doc, "num_ctx"@) == Ok::<Option<i32>, DecodeError>(options.num_ctx));
    assert(i32_field(doc, "num_gpu"@) == Ok::<Option<i32>, DecodeError>(options.num_gpu));
    assert(i32_field(doc, "num_predict"@) == Ok::<Option<i32>, DecodeError>(options.num_predict));
    assert(number_field(doc, "temperature"@) == Ok::<Option<serde_json::Value>, DecodeError>(
        options.temperature,
    ));
}

impl Clone for OllamaOptions2 {
    fn clone(&self) -> (r: Self)
        ensures
            r@ == self@,
    {
        proof {
            use_type_invariant(self);
        }
        OllamaOptions2 {
            num_ctx: self.num_ctx,
            num_gpu: self.num_gpu,
            num_predict: self.num_predict,
            temperature: opt_value_clone(&self.temperature),
        }
    }
}

impl OllamaOptions2 {
    #[verifier::type_invariant]
    spec fn temperature_is_a_number(self) -> bool {
        is_temperature(self.temperature)
    }

    /// Options of which none is set.
    pub fn new() -> (r: Self)
        ensures
            r@ == no_model_options(),
    {
        OllamaOptions2 { temperature: None, num_gpu: None, num_predict: None, num_ctx: None }
    }

    /// Reads model options from a JSON document (see `model_options_of`).
    pub fn from_json(json: &serde_json::Value) -> (r: Result<Self, DecodeError>)
        ensures
            match r {
                Ok(options) => model_options_of(*json) == Ok::<OllamaOptions2View, DecodeError>(
                    options@,
                ),
                Err(e) => model_options_of(*json) == Err::<OllamaOptions2View, DecodeError>(e),
            },
    {
        if !is_object(json) {
            return Err(DecodeError::NotAnObject);
        }
        let num_ctx = read_i32(json, "num_ctx");
        let num_gpu = read_i32(json, "num_gpu");
        let num_predict = read_i32(json, "num_predict");
        let temperature = read_number(json, "temperature");
        match (num_ctx, num_gpu, num_predict, temperature) {
            (Ok(num_ctx), Ok(num_gpu), Ok(num_predict), Ok(temperature)) => Ok(
                OllamaOptions2 { num_ctx, num_gpu, num_predict, temperature },
            ),
            _ => Err(DecodeError::InvalidField),
        }
    }

    /// The wire form of the options (see `is_model_options_json`). It reads back as the
    /// options.
    pub fn to_json(self) -> (r: serde_json::Value)
        ensures
            is_model_options_json(r, self@),
            model_options_of(r) == Ok::<OllamaOptions2View, DecodeError>(self@),
    {
        proof {
            lemma_option_keys();
            use_type_invariant(&self);
        }
        let mut doc = empty_object();
        put_optional_integer(
            &mut doc,
            "num_ctx",
            match self.num_ctx {
                Some(n) => Some(n as i64),
                None => None,
            },
        );
        put_optional_integer(
            &mut doc,
            "num_gpu",
            match self.num_gpu {
                Some(n) => Some(n as i64),
                None => None,
            },
        );
        put_optional_integer(
            &mut doc,
            "num_predict",
            match self.num_predict {
                Some(n) => Some(n as i64),
                None => None,
            },
        );
        put_optional_value(&mut doc, "temperature", opt_value_clone(&self.temperature));
        proof {
            lemma_model_options_json_reads_back(doc, self@);
        }
        doc
    }

    /// The size of the context window.
    pub fn num_ctx(&self) -> (r: Option<i32>)
        ensures
            r == self@.num_ctx,
    {
        self.num_ctx
    }

    /// Sets the size of the context window.
    pub fn set_num_ctx(self, num_ctx: i32) -> (r: Self)
        ensures
            r@ == (OllamaOptions2View { num_ctx: Some(num_ctx), ..self@ }),
    {
        proof {
            use_type_invariant(&self);
        }
        let mut options = self;
        options.num_ctx = Some(num_ctx);
        options
    }

    /// The number of layers to run on the GPU.
    pub fn num_gpu(&self) -> (r: Option<i32>)
        ensures
            r == self@.num_gpu,
    {
        self.num_gpu
    }

    /// Sets the number of layers to run on the GPU.
    pub fn set_num_gpu(self, num_gpu: i32) -> (r: Self)
        ensures
            r@ == (OllamaOptions2View { num_gpu: Some(num_gpu), ..self@ }),
    {
        proof {
            use_type_invariant(&self);
        }
        let mut options = self;
        options.num_gpu = Some(num_gpu);
        options
    }

    /// The number of tokens to predict.
    pub fn num_predict(&self) -> (r: Option<i32>)
        ensures
            r == self@.num_predict,
    {
        self.num_predict
    }

    /// Sets the number of tokens to predict.
    pub fn set_num_predict(self, num_predict: i32) -> (r: Self)
        ensures
            r@ == (OllamaOptions2View { num_predict: Some(num_predict), ..self@ }),
    {
        proof {
            use_type_invariant(&self);
        }
        let mut options = self;
        options.num_predict = Some(num_predict);
        options
    }

    /// The temperature: a JSON number.
    pub fn temperature(&self) -> (r: Option<&serde_json::Value>)
        ensures
            match r {
                Some(t) => self@.temperature == Some(*t) && json_is_number(*t),
                None => self@.temperature is None,
            },
    {
        proof {
            use_type_invariant(self);
        }
        self.temperature.as_ref()
    }

    /// Sets the temperature to the given JSON number. A document that is no number is not
    /// taken, and the options stay as they are.
    pub fn set_temperature(self, temperature: serde_json::Value) -> (r: Self)
        ensures
            r@ == if json_is_number(temperature) {
                OllamaOptions2View { temperature: Some(temperature), ..self@ }
            } else {
                self@
            },
    {
        proof {
            use_type_invariant(&self);
        }
        let mut options = self;
        if is_number(&temperature) {
            options.temperature = Some(temperature);
        }
        options
    }
}

} // verus!
