# rawler

Verified building blocks of a camera RAW decoding library, written in Verus.

`src/` is the library; every function in it carries a contract that Verus
proves:

- `bits`: byte-order readers (through `byteorder`), clamping, `log2ceil`,
  the dithered lookup table and the widening of 16/24-bit floats' bit patterns.
- `bitarray`: fixed-capacity bit arrays over the unsigned integer types.
- `cfa`: color filter array patterns (the 48x48 expanded pattern, shifting,
  plane colors).
- `float_widening`: the proof that widening 16/24-bit floats never rounds.
- `decoders`: format detection and the choice of decoder (`loader`), the
  camera configuration entries (`camera`), the raw layouts of CR2, CR3 and
  RAF files, the header of the unwrapped test format,
  orientation, the tags of each maker, and the
  format logic that does not need the TIFF, BMFF or bit-pump modules:
  - `arw`: the Sony tag decipher table (with the proof that it inverts cubing
    modulo 249), the ARW2 tone curve and the SR2 decryption (with the proof
    that decrypting twice gives the data back);
  - `cr2`: the COLORDATA layouts, the firmware version, the sRAW YCbCr to RGB
    transform and chroma interpolation, and the reassembly of stripes;
  - `cr3`: the CTMD records of the timed metadata, the exposure and focal
    length records, the white level and the crop and active areas;
  - `dcr`, `kdc`, `mos`: the Kodak 65000 and DC120 decoders, and the row
    order of interlaced Leaf images;
  - `iiq`: Phase One compression codes, uncompressed data, the makernote,
    the sensor calibration block and the integer sensor corrections;
  - `nef`: the Nikon lens data records, the metadata block of compressed
    data (with its linearization curve), the choice of raw layout and the
    decryption of the white balance record;
  - `pef`: the Pentax Huffman tables;
  - `mrw`, `qtk`: the MRW header blocks and MLY white balance, the QuickTake
    header;
  - `orf`: where the IFD of an Olympus makernote starts;
  - `raf`: the RAF magic, the rotation of Fuji images, DBP tiles, and in
    `fuji_decompressor` the header, validity rules, quantization tables and
    parameters of compressed RAF data;
  - `rw2`: the Panasonic bit pump and row decoder (V4), the V6 blocks and
    image,
    and the CF2 (V8) gamma curve, Huffman tables and parameters;
  - `x3f`: the Sigma X3F directory.
- `analyze`: capture information and the PPM image bytes.
- `buffer`, `rational`, `text`: padded buffers, rationals, and text helpers.

`tests/` runs the library on concrete values. `app/` holds what stays outside
the verified library: writing images, reading floating-point samples,
running row decoders on threads (`rayon`), reading camera definitions from
TOML (`toml`) and the floating-point sensor corrections.
